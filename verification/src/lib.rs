/// Metrics of colour distance and the search for the closest candidate.
pub mod color_dist;
/// Colours in sRGB: reading them from text and writing them out.
pub mod color_space;
/// The colours that HTML knows by name.
pub mod html_color;
/// Matrix multiplication.
pub mod math_utils;
