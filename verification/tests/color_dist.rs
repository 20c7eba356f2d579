use codi::color_dist::{
    closest_key, ColorDistance, Euclidean, EuclideanImproved, CIE94, IMPROVED_UNIT,
};
use codi::color_space::rgb;

#[test]
fn metric_names() {
    assert_eq!(Euclidean.name(), "Euclidean");
    assert_eq!(EuclideanImproved.name(), "Euclidean Improved");
    assert_eq!(CIE94.name(), "CIE94");
}

#[test]
fn euclidean_exact_values() {
    assert_eq!(Euclidean.dist(rgb(0, 0, 0), rgb(0, 0, 0)), 0);
    assert_eq!(Euclidean.dist(rgb(0, 0, 0), rgb(0, 0, 1)), 1);
    assert_eq!(Euclidean.dist(rgb(1, 2, 3), rgb(4, 6, 8)), 9 + 16 + 25);
    assert_eq!(Euclidean.dist(rgb(4, 6, 8), rgb(1, 2, 3)), 9 + 16 + 25);
    assert_eq!(
        Euclidean.dist(rgb(0, 0, 0), rgb(255, 255, 255)),
        3 * 255 * 255
    );
    assert_eq!(
        Euclidean.dist(rgb(255, 85, 255), rgb(238, 130, 238)),
        17 * 17 + 45 * 45 + 17 * 17
    );
}

#[test]
fn improved_exact_values() {
    assert_eq!(IMPROVED_UNIT, 512);
    assert_eq!(EuclideanImproved.dist(rgb(9, 9, 9), rgb(9, 9, 9)), 0);
    // One step of green weighs 4, whatever the red.
    assert_eq!(EuclideanImproved.dist(rgb(0, 0, 0), rgb(0, 1, 0)), 4 * 512);
    assert_eq!(
        EuclideanImproved.dist(rgb(200, 7, 0), rgb(200, 8, 0)),
        4 * 512
    );
    // With no red at all a step of blue weighs 2 + 255/256.
    assert_eq!(
        EuclideanImproved.dist(rgb(0, 0, 0), rgb(0, 0, 1)),
        2 * 512 + 510
    );
    // With full red a step of blue weighs 2.
    assert_eq!(
        EuclideanImproved.dist(rgb(255, 0, 0), rgb(255, 0, 1)),
        2 * 512
    );
    // A step of red from 0 to 1: mean red one half, weight 2 + 1/512.
    assert_eq!(
        EuclideanImproved.dist(rgb(0, 0, 0), rgb(1, 0, 0)),
        2 * 512 + 1
    );
    // Black to white: mean red 127.5.
    assert_eq!(
        EuclideanImproved.dist(rgb(0, 0, 0), rgb(255, 255, 255)),
        (1024 + 255 + 2048 + 1279) * 255 * 255
    );
    assert_eq!(
        EuclideanImproved.dist(rgb(255, 255, 255), rgb(255, 255, 255)),
        0
    );
    assert_eq!(
        EuclideanImproved.dist(rgb(255, 0, 0), rgb(255, 255, 255)),
        (2048 + 1024) * 255 * 255
    );
}

#[test]
fn distances_are_symmetric_and_zero_only_on_equal_colours() {
    let samples = [
        rgb(0, 0, 0),
        rgb(255, 255, 255),
        rgb(255, 0, 0),
        rgb(0, 255, 0),
        rgb(0, 0, 255),
        rgb(1, 0, 0),
        rgb(0, 1, 0),
        rgb(0, 0, 1),
        rgb(129, 129, 141),
        rgb(128, 128, 128),
    ];
    for a in samples {
        for b in samples {
            assert_eq!(Euclidean.dist(a, b), Euclidean.dist(b, a));
            assert_eq!(EuclideanImproved.dist(a, b), EuclideanImproved.dist(b, a));
            assert_eq!(Euclidean.dist(a, b) == 0, a == b);
            assert_eq!(EuclideanImproved.dist(a, b) == 0, a == b);
        }
    }
}

#[test]
fn find_closest_of_nothing_is_none() {
    assert_eq!(Euclidean.find_closest(rgb(1, 2, 3), &[]), None);
    assert_eq!(EuclideanImproved.find_closest(rgb(1, 2, 3), &[]), None);
    assert_eq!(closest_key(&[]), None);
}

#[test]
fn find_closest_picks_the_least_distance() {
    let candidates = [rgb(47, 79, 79), rgb(105, 105, 105), rgb(86, 76, 84)];
    assert_eq!(
        Euclidean.find_closest(rgb(86, 76, 85), &candidates),
        Some(2)
    );
    assert_eq!(
        EuclideanImproved.find_closest(rgb(86, 76, 85), &candidates),
        Some(2)
    );
    assert_eq!(
        Euclidean.find_closest(rgb(86, 76, 85), &candidates[..2]),
        Some(0)
    );
    assert_eq!(Euclidean.find_closest(rgb(0, 0, 0), &[rgb(9, 9, 9)]), Some(0));
}

#[test]
fn find_closest_breaks_ties_towards_the_first() {
    // Both neighbours are one step of green away.
    let target = rgb(10, 10, 10);
    let candidates = [rgb(50, 50, 50), rgb(10, 11, 10), rgb(10, 9, 10), rgb(10, 11, 10)];
    assert_eq!(Euclidean.find_closest(target, &candidates), Some(1));
    assert_eq!(EuclideanImproved.find_closest(target, &candidates), Some(1));
    let swapped = [rgb(10, 9, 10), rgb(50, 50, 50), rgb(10, 11, 10)];
    assert_eq!(Euclidean.find_closest(target, &swapped), Some(0));
    assert_eq!(EuclideanImproved.find_closest(target, &swapped), Some(0));
    let same = [rgb(7, 7, 7), rgb(7, 7, 7), rgb(7, 7, 7)];
    assert_eq!(Euclidean.find_closest(target, &same), Some(0));
}

#[test]
fn closest_key_is_the_first_least() {
    assert_eq!(closest_key(&[5]), Some(0));
    assert_eq!(closest_key(&[5, 4, 3, 2, 1]), Some(4));
    assert_eq!(closest_key(&[1, 2, 3]), Some(0));
    assert_eq!(closest_key(&[3, 1, 2, 1, 3]), Some(1));
    assert_eq!(closest_key(&[0, 0, 0]), Some(0));
    assert_eq!(closest_key(&[u32::MAX, u32::MAX - 1, u32::MAX]), Some(1));
    assert_eq!(closest_key(&[9, 9, 8, 8]), Some(2));
}

#[test]
fn metrics_may_disagree() {
    // Red weighs less than green once the weights are in.
    let target = rgb(0, 0, 0);
    let candidates = [rgb(0, 10, 0), rgb(13, 0, 0)];
    assert_eq!(Euclidean.find_closest(target, &candidates), Some(0));
    assert_eq!(EuclideanImproved.find_closest(target, &candidates), Some(1));
}
