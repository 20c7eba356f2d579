use codi::color_dist::{closest_key, ColorDistance, Euclidean, EuclideanImproved};
use codi::color_space::{rgb, Rgb};
use codi::html_color::{
    __split_colors_arr, colors, find_closest, find_exact, only_colors, only_names, HtmlColor,
    COLORS_LEN,
};

/// Linear light from a gamma-encoded channel value.
fn to_linear(channel: u8) -> f32 {
    let col = f32::from(channel) / 255.0;
    if col <= 0.04045 {
        col / 12.92
    } else {
        libm::powf((col + 0.055) / 1.055, 2.4)
    }
}

fn lab_f(t: f32) -> f32 {
    let delta: f32 = 6.0 / 29.0;
    if t > delta * delta * delta {
        libm::cbrtf(t)
    } else {
        t / (3.0 * delta * delta) + 4.0 / 29.0
    }
}

fn lab(color: Rgb) -> (f32, f32, f32) {
    let (r, g, b) = (to_linear(color.r), to_linear(color.g), to_linear(color.b));
    let x = 0.4124 * r + 0.3576 * g + 0.1805 * b;
    let y = 0.2126 * r + 0.7152 * g + 0.0722 * b;
    let z = 0.0193 * r + 0.1192 * g + 0.9505 * b;
    let (fx, fy, fz) = (lab_f(x / 0.950_489), lab_f(y), lab_f(z / 1.08884));
    (116.0 * fy - 16.0, 500.0 * (fx - fy), 200.0 * (fy - fz))
}

fn cie94(c1: Rgb, c2: Rgb) -> f32 {
    let (l1, a1, b1) = lab(c1);
    let (l2, a2, b2) = lab(c2);
    let chroma1 = libm::hypotf(a1, b1);
    let chroma2 = libm::hypotf(a2, b2);
    let d_c = chroma1 - chroma2;
    let hue = libm::sqrtf(((a1 - a2) * (a1 - a2) + (b1 - b2) * (b1 - b2) - d_c * d_c).max(0.0));
    let s_c = 1.0 + 0.045 * chroma1;
    let s_h = 1.0 + 0.015 * chroma1;
    (l1 - l2) * (l1 - l2) + (d_c / s_c) * (d_c / s_c) + (hue / s_h) * (hue / s_h)
}

/// The bits of a distance that is not negative order as the distance does.
fn cie94_key(c1: Rgb, c2: Rgb) -> u32 {
    let dist = cie94(c1, c2);
    assert!(dist >= 0.0);
    (dist + 0.0).to_bits()
}

fn find_closest_cie94(target: Rgb) -> HtmlColor {
    let keys: Vec<u32> = only_colors()
        .iter()
        .map(|other| cie94_key(target, *other))
        .collect();
    colors()[closest_key(&keys).unwrap()]
}

#[test]
fn catalog_has_its_length_and_its_order() {
    let all = colors();
    assert_eq!(all.len(), COLORS_LEN);
    assert_eq!(COLORS_LEN, 138);
    assert_eq!(all[0], HtmlColor { name: "aliceblue", color: rgb(240, 248, 255) });
    assert_eq!(all[137], HtmlColor { name: "yellowgreen", color: rgb(154, 205, 50) });
    for pair in all.windows(2) {
        assert!(pair[0].name < pair[1].name);
    }
}

#[test]
fn catalog_has_no_colour_twice() {
    let all = colors();
    for (i, a) in all.iter().enumerate() {
        for b in &all[i + 1..] {
            assert_ne!(a.color, b.color);
            assert_ne!(a.name, b.name);
        }
    }
}

#[test]
fn split_gives_names_and_values_in_order() {
    let all = colors();
    let names = only_names();
    let values = only_colors();
    assert_eq!(names.len(), all.len());
    assert_eq!(values.len(), all.len());
    for (i, entry) in all.iter().enumerate() {
        assert_eq!(names[i], entry.name);
        assert_eq!(values[i], entry.color);
    }
    let (first_names, first_values) = __split_colors_arr::<3>();
    assert_eq!(first_names, ["aliceblue", "antiquewhite", "aquamarine"]);
    assert_eq!(
        first_values,
        [rgb(240, 248, 255), rgb(250, 235, 215), rgb(127, 255, 212)]
    );
    let (no_names, no_values) = __split_colors_arr::<0>();
    assert!(no_names.is_empty() && no_values.is_empty());
}

#[test]
fn find_exact_knows_every_named_colour() {
    for entry in colors() {
        assert_eq!(find_exact(entry.color), Some(entry.name));
    }
}

#[test]
fn find_exact_knows_no_other_colour() {
    assert_eq!(find_exact(rgb(255, 85, 255)), None);
    assert_eq!(find_exact(rgb(129, 129, 141)), None);
    assert_eq!(find_exact(rgb(1, 2, 3)), None);
    assert_eq!(find_exact(rgb(255, 127, 81)), None);
}

#[test]
fn exact_match_is_coral() {
    let target = Rgb::try_from("#ff7f50").unwrap();
    assert_eq!(target, rgb(255, 127, 80));
    assert_eq!(find_exact(target), Some("coral"));
    let coral = HtmlColor { name: "coral", color: target };
    assert_eq!(find_closest(&Euclidean, target), coral);
    assert_eq!(find_closest(&EuclideanImproved, target), coral);
    assert_eq!(find_closest_cie94(target), coral);
    assert_eq!(Euclidean.dist(target, coral.color), 0);
    assert_eq!(EuclideanImproved.dist(target, coral.color), 0);
    assert_eq!(cie94(target, coral.color), 0.0);
}

#[test]
fn metrics_agree_on_gray() {
    let target = Rgb::try_from("#81818d").unwrap();
    let gray = HtmlColor { name: "gray", color: rgb(128, 128, 128) };
    assert_eq!(find_closest(&Euclidean, target), gray);
    assert_eq!(find_closest(&EuclideanImproved, target), gray);
    assert_eq!(find_closest_cie94(target), gray);
}

#[test]
fn metrics_disagree_on_light_magenta() {
    let target = Rgb::try_from("#FF55FF").unwrap();
    assert_eq!(target, rgb(255, 85, 255));
    let violet = HtmlColor { name: "violet", color: rgb(0xEE, 0x82, 0xEE) };
    let magenta = HtmlColor { name: "magenta", color: rgb(0xFF, 0x00, 0xFF) };
    assert_eq!(find_closest(&Euclidean, target), violet);
    assert_eq!(find_closest(&EuclideanImproved, target), violet);
    assert_eq!(find_closest_cie94(target), magenta);
    assert_eq!(find_exact(target), None);
}

#[test]
fn find_closest_agrees_with_a_scan_of_the_catalog() {
    let targets = [
        rgb(0, 0, 0),
        rgb(255, 255, 255),
        rgb(86, 76, 85),
        rgb(44, 18, 24),
        rgb(200, 100, 50),
        rgb(1, 254, 127),
    ];
    let values = only_colors();
    for target in targets {
        let found = find_closest(&Euclidean, target);
        let least = values.iter().map(|c| Euclidean.dist(target, *c)).min().unwrap();
        let first = values
            .iter()
            .position(|c| Euclidean.dist(target, *c) == least)
            .unwrap();
        assert_eq!(found, colors()[first]);
        assert_eq!(Euclidean.find_closest(target, &values), Some(first));

        let found = find_closest(&EuclideanImproved, target);
        let least = values
            .iter()
            .map(|c| EuclideanImproved.dist(target, *c))
            .min()
            .unwrap();
        let first = values
            .iter()
            .position(|c| EuclideanImproved.dist(target, *c) == least)
            .unwrap();
        assert_eq!(found, colors()[first]);
    }
}

fn cie94_find_closest(target: Rgb, candidates: &[Rgb]) -> Option<usize> {
    let keys: Vec<u32> = candidates
        .iter()
        .map(|other| cie94_key(target, *other))
        .collect();
    closest_key(&keys)
}

#[test]
fn test_basic() {
    assert_eq!(
        cie94_find_closest(rgb(86, 76, 85), &[rgb(47, 79, 79), rgb(105, 105, 105)]),
        Some(1)
    );
}

#[test]
fn plain_distance_ranks_the_same_pair_the_other_way() {
    assert_eq!(
        Euclidean.find_closest(rgb(86, 76, 85), &[rgb(47, 79, 79), rgb(105, 105, 105)]),
        Some(0)
    );
    assert_eq!(cie94_find_closest(rgb(1, 2, 3), &[]), None);
}

#[test]
fn all_algs_same_result() {
    let tests = [(
        Rgb::try_from("#81818d").unwrap(),
        Rgb::try_from("#808080").unwrap(),
    )];

    for (input, expected) in tests {
        let found = [
            find_closest(&Euclidean, input),
            find_closest(&EuclideanImproved, input),
            find_closest_cie94(input),
        ];
        for closest in found {
            assert_eq!(
                closest.color,
                expected,
                "closest html color for {input:?} shoud be {expected:?}"
            );
        }
    }
}

#[test]
fn every_named_colour_is_its_own_closest() {
    for entry in colors() {
        assert_eq!(find_closest(&Euclidean, entry.color), entry);
        assert_eq!(find_closest(&EuclideanImproved, entry.color), entry);
    }
}
