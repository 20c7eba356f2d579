use crate::color_dist::{distances, is_first_minimum, ColorDistance};
use crate::color_space::Rgb;
use vstd::prelude::*;

verus! {

/// A colour that HTML knows by name.
#[derive(Debug, Clone, Copy, PartialEq, Eq)]
pub struct HtmlColor {
    pub name: &'static str,
    pub color: Rgb,
}

/// The number of named colours.
pub const COLORS_LEN: usize = 138;

/// The named colours, in the order in which they are searched. No colour
/// value occurs twice.
pub open spec fn catalog() -> Seq<HtmlColor> {
    seq![
        HtmlColor { name: "aliceblue", color: Rgb { r: 240, g: 248, b: 255 } },
        HtmlColor { name: "antiquewhite", color: Rgb { r: 250, g: 235, b: 215 } },
        HtmlColor { name: "aquamarine", color: Rgb { r: 127, g: 255, b: 212 } },
        HtmlColor { name: "azure", color: Rgb { r: 240, g: 255, b: 255 } },
        HtmlColor { name: "beige", color: Rgb { r: 245, g: 245, b: 220 } },
        HtmlColor { name: "bisque", color: Rgb { r: 255, g: 228, b: 196 } },
        HtmlColor { name: "black", color: Rgb { r: 0, g: 0, b: 0 } },
        HtmlColor { name: "blanchedalmond", color: Rgb { r: 255, g: 235, b: 205 } },
        HtmlColor { name: "blue", color: Rgb { r: 0, g: 0, b: 255 } },
        HtmlColor { name: "blueviolet", color: Rgb { r: 138, g: 43, b: 226 } },
        HtmlColor { name: "brown", color: Rgb { r: 165, g: 42, b: 42 } },
        HtmlColor { name: "burlywood", color: Rgb { r: 222, g: 184, b: 135 } },
        HtmlColor { name: "cadetblue", color: Rgb { r: 95, g: 158, b: 160 } },
        HtmlColor { name: "chartreuse", color: Rgb { r: 127, g: 255, b: 0 } },
        HtmlColor { name: "chocolate", color: Rgb { r: 210, g: 105, b: 30 } },
        HtmlColor { name: "coral", color: Rgb { r: 255, g: 127, b: 80 } },
        HtmlColor { name: "cornflowerblue", color: Rgb { r: 100, g: 149, b: 237 } },
        HtmlColor { name: "cornsilk", color: Rgb { r: 255, g: 248, b: 220 } },
        HtmlColor { name: "crimson", color: Rgb { r: 220, g: 20, b: 60 } },
        HtmlColor { name: "cyan", color: Rgb { r: 0, g: 255, b: 255 } },
        HtmlColor { name: "darkblue", color: Rgb { r: 0, g: 0, b: 139 } },
        HtmlColor { name: "darkcyan", color: Rgb { r: 0, g: 139, b: 139 } },
        HtmlColor { name: "darkgoldenrod", color: Rgb { r: 184, g: 134, b: 11 } },
        HtmlColor { name: "darkgray", color: Rgb { r: 169, g: 169, b: 169 } },
        HtmlColor { name: "darkgreen", color: Rgb { r: 0, g: 100, b: 0 } },
        HtmlColor { name: "darkkhaki", color: Rgb { r: 189, g: 183, b: 107 } },
        HtmlColor { name: "darkmagenta", color: Rgb { r: 139, g: 0, b: 139 } },
        HtmlColor { name: "darkolivegreen", color: Rgb { r: 85, g: 107, b: 47 } },
        HtmlColor { name: "darkorange", color: Rgb { r: 255, g: 140, b: 0 } },
        HtmlColor { name: "darkorchid", color: Rgb { r: 153, g: 50, b: 204 } },
        HtmlColor { name: "darkred", color: Rgb { r: 139, g: 0, b: 0 } },
        HtmlColor { name: "darksalmon", color: Rgb { r: 233, g: 150, b: 122 } },
        HtmlColor { name: "darkseagreen", color: Rgb { r: 143, g: 188, b: 143 } },
        HtmlColor { name: "darkslateblue", color: Rgb { r: 72, g: 61, b: 139 } },
        HtmlColor { name: "darkslategray", color: Rgb { r: 47, g: 79, b: 79 } },
        HtmlColor { name: "darkturquoise", color: Rgb { r: 0, g: 206, b: 209 } },
        HtmlColor { name: "darkviolet", color: Rgb { r: 148, g: 0, b: 211 } },
        HtmlColor { name: "deeppink", color: Rgb { r: 255, g: 20, b: 147 } },
        HtmlColor { name: "deepskyblue", color: Rgb { r: 0, g: 191, b: 255 } },
        HtmlColor { name: "dimgray", color: Rgb { r: 105, g: 105, b: 105 } },
        HtmlColor { name: "dodgerblue", color: Rgb { r: 30, g: 144, b: 255 } },
        HtmlColor { name: "firebrick", color: Rgb { r: 178, g: 34, b: 34 } },
        HtmlColor { name: "floralwhite", color: Rgb { r: 255, g: 250, b: 240 } },
        HtmlColor { name: "forestgreen", color: Rgb { r: 34, g: 139, b: 34 } },
        HtmlColor { name: "gainsboro", color: Rgb { r: 220, g: 220, b: 220 } },
        HtmlColor { name: "ghostwhite", color: Rgb { r: 248, g: 248, b: 255 } },
        HtmlColor { name: "gold", color: Rgb { r: 255, g: 215, b: 0 } },
        HtmlColor { name: "goldenrod", color: Rgb { r: 218, g: 165, b: 32 } },
        HtmlColor { name: "gray", color: Rgb { r: 128, g: 128, b: 128 } },
        HtmlColor { name: "green", color: Rgb { r: 0, g: 128, b: 0 } },
        HtmlColor { name: "greenyellow", color: Rgb { r: 173, g: 255, b: 47 } },
        HtmlColor { name: "honeydew", color: Rgb { r: 240, g: 255, b: 240 } },
        HtmlColor { name: "hotpink", color: Rgb { r: 255, g: 105, b: 180 } },
        HtmlColor { name: "indianred", color: Rgb { r: 205, g: 92, b: 92 } },
        HtmlColor { name: "indigo", color: Rgb { r: 75, g: 0, b: 130 } },
        HtmlColor { name: "ivory", color: Rgb { r: 255, g: 255, b: 240 } },
        HtmlColor { name: "khaki", color: Rgb { r: 240, g: 230, b: 140 } },
        HtmlColor { name: "lavender", color: Rgb { r: 230, g: 230, b: 250 } },
        HtmlColor { name: "lavenderblush", color: Rgb { r: 255, g: 240, b: 245 } },
        HtmlColor { name: "lawngreen", color: Rgb { r: 124, g: 252, b: 0 } },
        HtmlColor { name: "lemonchiffon", color: Rgb { r: 255, g: 250, b: 205 } },
        HtmlColor { name: "lightblue", color: Rgb { r: 173, g: 216, b: 230 } },
        HtmlColor { name: "lightcoral", color: Rgb { r: 240, g: 128, b: 128 } },
        HtmlColor { name: "lightcyan", color: Rgb { r: 224, g: 255, b: 255 } },
        HtmlColor { name: "lightgoldenrodyellow", color: Rgb { r: 250, g: 250, b: 210 } },
        HtmlColor { name: "lightgray", color: Rgb { r: 211, g: 211, b: 211 } },
        HtmlColor { name: "lightgreen", color: Rgb { r: 144, g: 238, b: 144 } },
        HtmlColor { name: "lightpink", color: Rgb { r: 255, g: 182, b: 193 } },
        HtmlColor { name: "lightsalmon", color: Rgb { r: 255, g: 160, b: 122 } },
        HtmlColor { name: "lightseagreen", color: Rgb { r: 32, g: 178, b: 170 } },
        HtmlColor { name: "lightskyblue", color: Rgb { r: 135, g: 206, b: 250 } },
        HtmlColor { name: "lightslategray", color: Rgb { r: 119, g: 136, b: 153 } },
        HtmlColor { name: "lightsteelblue", color: Rgb { r: 176, g: 196, b: 222 } },
        HtmlColor { name: "lightyellow", color: Rgb { r: 255, g: 255, b: 224 } },
        HtmlColor { name: "lime", color: Rgb { r: 0, g: 255, b: 0 } },
        HtmlColor { name: "limegreen", color: Rgb { r: 50, g: 205, b: 50 } },
        HtmlColor { name: "linen", color: Rgb { r: 250, g: 240, b: 230 } },
        HtmlColor { name: "magenta", color: Rgb { r: 255, g: 0, b: 255 } },
        HtmlColor { name: "maroon", color: Rgb { r: 128, g: 0, b: 0 } },
        HtmlColor { name: "mediumaquamarine", color: Rgb { r: 102, g: 205, b: 170 } },
        HtmlColor { name: "mediumblue", color: Rgb { r: 0, g: 0, b: 205 } },
        HtmlColor { name: "mediumorchid", color: Rgb { r: 186, g: 85, b: 211 } },
        HtmlColor { name: "mediumpurple", color: Rgb { r: 147, g: 112, b: 219 } },
        HtmlColor { name: "mediumseagreen", color: Rgb { r: 60, g: 179, b: 113 } },
        HtmlColor { name: "mediumslateblue", color: Rgb { r: 123, g: 104, b: 238 } },
        HtmlColor { name: "mediumspringgreen", color: Rgb { r: 0, g: 250, b: 154 } },
        HtmlColor { name: "mediumturquoise", color: Rgb { r: 72, g: 209, b: 204 } },
        HtmlColor { name: "mediumvioletred", color: Rgb { r: 199, g: 21, b: 133 } },
        HtmlColor { name: "midnightblue", color: Rgb { r: 25, g: 25, b: 112 } },
        HtmlColor { name: "mintcream", color: Rgb { r: 245, g: 255, b: 250 } },
        HtmlColor { name: "mistyrose", color: Rgb { r: 255, g: 228, b: 225 } },
        HtmlColor { name: "moccasin", color: Rgb { r: 255, g: 228, b: 181 } },
        HtmlColor { name: "navajowhite", color: Rgb { r: 255, g: 222, b: 173 } },
        HtmlColor { name: "navy", color: Rgb { r: 0, g: 0, b: 128 } },
        HtmlColor { name: "oldlace", color: Rgb { r: 253, g: 245, b: 230 } },
        HtmlColor { name: "olive", color: Rgb { r: 128, g: 128, b: 0 } },
        HtmlColor { name: "olivedrab", color: Rgb { r: 107, g: 142, b: 35 } },
        HtmlColor { name: "orange", color: Rgb { r: 255, g: 165, b: 0 } },
        HtmlColor { name: "orangered", color: Rgb { r: 255, g: 69, b: 0 } },
        HtmlColor { name: "orchid", color: Rgb { r: 218, g: 112, b: 214 } },
        HtmlColor { name: "palegoldenrod", color: Rgb { r: 238, g: 232, b: 170 } },
        HtmlColor { name: "palegreen", color: Rgb { r: 152, g: 251, b: 152 } },
        HtmlColor { name: "paleturquoise", color: Rgb { r: 175, g: 238, b: 238 } },
        HtmlColor { name: "palevioletred", color: Rgb { r: 219, g: 112, b: 147 } },
        HtmlColor { name: "papayawhip", color: Rgb { r: 255, g: 239, b: 213 } },
        HtmlColor { name: "peachpuff", color: Rgb { r: 255, g: 218, b: 185 } },
        HtmlColor { name: "peru", color: Rgb { r: 205, g: 133, b: 63 } },
        HtmlColor { name: "pink", color: Rgb { r: 255, g: 192, b: 203 } },
        HtmlColor { name: "plum", color: Rgb { r: 221, g: 160, b: 221 } },
        HtmlColor { name: "powderblue", color: Rgb { r: 176, g: 224, b: 230 } },
        HtmlColor { name: "purple", color: Rgb { r: 128, g: 0, b: 128 } },
        HtmlColor { name: "red", color: Rgb { r: 255, g: 0, b: 0 } },
        HtmlColor { name: "rosybrown", color: Rgb { r: 188, g: 143, b: 143 } },
        HtmlColor { name: "royalblue", color: Rgb { r: 65, g: 105, b: 225 } },
        HtmlColor { name: "saddlebrown", color: Rgb { r: 139, g: 69, b: 19 } },
        HtmlColor { name: "salmon", color: Rgb { r: 250, g: 128, b: 114 } },
        HtmlColor { name: "sandybrown", color: Rgb { r: 244, g: 164, b: 96 } },
        HtmlColor { name: "seagreen", color: Rgb { r: 46, g: 139, b: 87 } },
        HtmlColor { name: "seashell", color: Rgb { r: 255, g: 245, b: 238 } },
        HtmlColor { name: "sienna", color: Rgb { r: 160, g: 82, b: 45 } },
        HtmlColor { name: "silver", color: Rgb { r: 192, g: 192, b: 192 } },
        HtmlColor { name: "skyblue", color: Rgb { r: 135, g: 206, b: 235 } },
        HtmlColor { name: "slateblue", color: Rgb { r: 106, g: 90, b: 205 } },
        HtmlColor { name: "slategray", color: Rgb { r: 112, g: 128, b: 144 } },
        HtmlColor { name: "snow", color: Rgb { r: 255, g: 250, b: 250 } },
        HtmlColor { name: "springgreen", color: Rgb { r: 0, g: 255, b: 127 } },
        HtmlColor { name: "steelblue", color: Rgb { r: 70, g: 130, b: 180 } },
        HtmlColor { name: "tan", color: Rgb { r: 210, g: 180, b: 140 } },
        HtmlColor { name: "teal", color: Rgb { r: 0, g: 128, b: 128 } },
        HtmlColor { name: "thistle", color: Rgb { r: 216, g: 191, b: 216 } },
        HtmlColor { name: "tomato", color: Rgb { r: 255, g: 99, b: 71 } },
        HtmlColor { name: "turquoise", color: Rgb { r: 64, g: 224, b: 208 } },
        HtmlColor { name: "violet", color: Rgb { r: 238, g: 130, b: 238 } },
        HtmlColor { name: "wheat", color: Rgb { r: 245, g: 222, b: 179 } },
        HtmlColor { name: "white", color: Rgb { r: 255, g: 255, b: 255 } },
        HtmlColor { name: "whitesmoke", color: Rgb { r: 245, g: 245, b: 245 } },
        HtmlColor { name: "yellow", color: Rgb { r: 255, g: 255, b: 0 } },
        HtmlColor { name: "yellowgreen", color: Rgb { r: 154, g: 205, b: 50 } },
    ]
}

/// The named colours, in the order of [`catalog`].
pub fn colors() -> (res: [HtmlColor; COLORS_LEN])
    ensures
        res@ == catalog(),
{
    let res = [
        HtmlColor { name: "aliceblue", color: Rgb { r: 240, g: 248, b: 255 } },
        HtmlColor { name: "antiquewhite", color: Rgb { r: 250, g: 235, b: 215 } },
        HtmlColor { name: "aquamarine", color: Rgb { r: 127, g: 255, b: 212 } },
        HtmlColor { name: "azure", color: Rgb { r: 240, g: 255, b: 255 } },
        HtmlColor { name: "beige", color: Rgb { r: 245, g: 245, b: 220 } },
        HtmlColor { name: "bisque", color: Rgb { r: 255, g: 228, b: 196 } },
        HtmlColor { name: "black", color: Rgb { r: 0, g: 0, b: 0 } },
        HtmlColor { name: "blanchedalmond", color: Rgb { r: 255, g: 235, b: 205 } },
        HtmlColor { name: "blue", color: Rgb { r: 0, g: 0, b: 255 } },
        HtmlColor { name: "blueviolet", color: Rgb { r: 138, g: 43, b: 226 } },
        HtmlColor { name: "brown", color: Rgb { r: 165, g: 42, b: 42 } },
        HtmlColor { name: "burlywood", color: Rgb { r: 222, g: 184, b: 135 } },
        HtmlColor { name: "cadetblue", color: Rgb { r: 95, g: 158, b: 160 } },
        HtmlColor { name: "chartreuse", color: Rgb { r: 127, g: 255, b: 0 } },
        HtmlColor { name: "chocolate", color: Rgb { r: 210, g: 105, b: 30 } },
        HtmlColor { name: "coral", color: Rgb { r: 255, g: 127, b: 80 } },
        HtmlColor { name: "cornflowerblue", color: Rgb { r: 100, g: 149, b: 237 } },
        HtmlColor { name: "cornsilk", color: Rgb { r: 255, g: 248, b: 220 } },
        HtmlColor { name: "crimson", color: Rgb { r: 220, g: 20, b: 60 } },
        HtmlColor { name: "cyan", color: Rgb { r: 0, g: 255, b: 255 } },
        HtmlColor { name: "darkblue", color: Rgb { r: 0, g: 0, b: 139 } },
        HtmlColor { name: "darkcyan", color: Rgb { r: 0, g: 139, b: 139 } },
        HtmlColor { name: "darkgoldenrod", color: Rgb { r: 184, g: 134, b: 11 } },
        HtmlColor { name: "darkgray", color: Rgb { r: 169, g: 169, b: 169 } },
        HtmlColor { name: "darkgreen", color: Rgb { r: 0, g: 100, b: 0 } },
        HtmlColor { name: "darkkhaki", color: Rgb { r: 189, g: 183, b: 107 } },
        HtmlColor { name: "darkmagenta", color: Rgb { r: 139, g: 0, b: 139 } },
        HtmlColor { name: "darkolivegreen", color: Rgb { r: 85, g: 107, b: 47 } },
        HtmlColor { name: "darkorange", color: Rgb { r: 255, g: 140, b: 0 } },
        HtmlColor { name: "darkorchid", color: Rgb { r: 153, g: 50, b: 204 } },
        HtmlColor { name: "darkred", color: Rgb { r: 139, g: 0, b: 0 } },
        HtmlColor { name: "darksalmon", color: Rgb { r: 233, g: 150, b: 122 } },
        HtmlColor { name: "darkseagreen", color: Rgb { r: 143, g: 188, b: 143 } },
        HtmlColor { name: "darkslateblue", color: Rgb { r: 72, g: 61, b: 139 } },
        HtmlColor { name: "darkslategray", color: Rgb { r: 47, g: 79, b: 79 } },
        HtmlColor { name: "darkturquoise", color: Rgb { r: 0, g: 206, b: 209 } },
        HtmlColor { name: "darkviolet", color: Rgb { r: 148, g: 0, b: 211 } },
        HtmlColor { name: "deeppink", color: Rgb { r: 255, g: 20, b: 147 } },
        HtmlColor { name: "deepskyblue", color: Rgb { r: 0, g: 191, b: 255 } },
        HtmlColor { name: "dimgray", color: Rgb { r: 105, g: 105, b: 105 } },
        HtmlColor { name: "dodgerblue", color: Rgb { r: 30, g: 144, b: 255 } },
        HtmlColor { name: "firebrick", color: Rgb { r: 178, g: 34, b: 34 } },
        HtmlColor { name: "floralwhite", color: Rgb { r: 255, g: 250, b: 240 } },
        HtmlColor { name: "forestgreen", color: Rgb { r: 34, g: 139, b: 34 } },
        HtmlColor { name: "gainsboro", color: Rgb { r: 220, g: 220, b: 220 } },
        HtmlColor { name: "ghostwhite", color: Rgb { r: 248, g: 248, b: 255 } },
        HtmlColor { name: "gold", color: Rgb { r: 255, g: 215, b: 0 } },
        HtmlColor { name: "goldenrod", color: Rgb { r: 218, g: 165, b: 32 } },
        HtmlColor { name: "gray", color: Rgb { r: 128, g: 128, b: 128 } },
        HtmlColor { name: "green", color: Rgb { r: 0, g: 128, b: 0 } },
        HtmlColor { name: "greenyellow", color: Rgb { r: 173, g: 255, b: 47 } },
        HtmlColor { name: "honeydew", color: Rgb { r: 240, g: 255, b: 240 } },
        HtmlColor { name: "hotpink", color: Rgb { r: 255, g: 105, b: 180 } },
        HtmlColor { name: "indianred", color: Rgb { r: 205, g: 92, b: 92 } },
        HtmlColor { name: "indigo", color: Rgb { r: 75, g: 0, b: 130 } },
        HtmlColor { name: "ivory", color: Rgb { r: 255, g: 255, b: 240 } },
        HtmlColor { name: "khaki", color: Rgb { r: 240, g: 230, b: 140 } },
        HtmlColor { name: "lavender", color: Rgb { r: 230, g: 230, b: 250 } },
        HtmlColor { name: "lavenderblush", color: Rgb { r: 255, g: 240, b: 245 } },
        HtmlColor { name: "lawngreen", color: Rgb { r: 124, g: 252, b: 0 } },
        HtmlColor { name: "lemonchiffon", color: Rgb { r: 255, g: 250, b: 205 } },
        HtmlColor { name: "lightblue", color: Rgb { r: 173, g: 216, b: 230 } },
        HtmlColor { name: "lightcoral", color: Rgb { r: 240, g: 128, b: 128 } },
        HtmlColor { name: "lightcyan", color: Rgb { r: 224, g: 255, b: 255 } },
        HtmlColor { name: "lightgoldenrodyellow", color: Rgb { r: 250, g: 250, b: 210 } },
        HtmlColor { name: "lightgray", color: Rgb { r: 211, g: 211, b: 211 } },
        HtmlColor { name: "lightgreen", color: Rgb { r: 144, g: 238, b: 144 } },
        HtmlColor { name: "lightpink", color: Rgb { r: 255, g: 182, b: 193 } },
        HtmlColor { name: "lightsalmon", color: Rgb { r: 255, g: 160, b: 122 } },
        HtmlColor { name: "lightseagreen", color: Rgb { r: 32, g: 178, b: 170 } },
        HtmlColor { name: "lightskyblue", color: Rgb { r: 135, g: 206, b: 250 } },
        HtmlColor { name: "lightslategray", color: Rgb { r: 119, g: 136, b: 153 } },
        HtmlColor { name: "lightsteelblue", color: Rgb { r: 176, g: 196, b: 222 } },
        HtmlColor { name: "lightyellow", color: Rgb { r: 255, g: 255, b: 224 } },
        HtmlColor { name: "lime", color: Rgb { r: 0, g: 255, b: 0 } },
        HtmlColor { name: "limegreen", color: Rgb { r: 50, g: 205, b: 50 } },
        HtmlColor { name: "linen", color: Rgb { r: 250, g: 240, b: 230 } },
        HtmlColor { name: "magenta", color: Rgb { r: 255, g: 0, b: 255 } },
        HtmlColor { name: "maroon", color: Rgb { r: 128, g: 0, b: 0 } },
        HtmlColor { name: "mediumaquamarine", color: Rgb { r: 102, g: 205, b: 170 } },
        HtmlColor { name: "mediumblue", color: Rgb { r: 0, g: 0, b: 205 } },
        HtmlColor { name: "mediumorchid", color: Rgb { r: 186, g: 85, b: 211 } },
        HtmlColor { name: "mediumpurple", color: Rgb { r: 147, g: 112, b: 219 } },
        HtmlColor { name: "mediumseagreen", color: Rgb { r: 60, g: 179, b: 113 } },
        HtmlColor { name: "mediumslateblue", color: Rgb { r: 123, g: 104, b: 238 } },
        HtmlColor { name: "mediumspringgreen", color: Rgb { r: 0, g: 250, b: 154 } },
        HtmlColor { name: "mediumturquoise", color: Rgb { r: 72, g: 209, b: 204 } },
        HtmlColor { name: "mediumvioletred", color: Rgb { r: 199, g: 21, b: 133 } },
        HtmlColor { name: "midnightblue", color: Rgb { r: 25, g: 25, b: 112 } },
        HtmlColor { name: "mintcream", color: Rgb { r: 245, g: 255, b: 250 } },
        HtmlColor { name: "mistyrose", color: Rgb { r: 255, g: 228, b: 225 } },
        HtmlColor { name: "moccasin", color: Rgb { r: 255, g: 228, b: 181 } },
        HtmlColor { name: "navajowhite", color: Rgb { r: 255, g: 222, b: 173 } },
        HtmlColor { name: "navy", color: Rgb { r: 0, g: 0, b: 128 } },
        HtmlColor { name: "oldlace", color: Rgb { r: 253, g: 245, b: 230 } },
        HtmlColor { name: "olive", color: Rgb { r: 128, g: 128, b: 0 } },
        HtmlColor { name: "olivedrab", color: Rgb { r: 107, g: 142, b: 35 } },
        HtmlColor { name: "orange", color: Rgb { r: 255, g: 165, b: 0 } },
        HtmlColor { name: "orangered", color: Rgb { r: 255, g: 69, b: 0 } },
        HtmlColor { name: "orchid", color: Rgb { r: 218, g: 112, b: 214 } },
        HtmlColor { name: "palegoldenrod", color: Rgb { r: 238, g: 232, b: 170 } },
        HtmlColor { name: "palegreen", color: Rgb { r: 152, g: 251, b: 152 } },
        HtmlColor { name: "paleturquoise", color: Rgb { r: 175, g: 238, b: 238 } },
        HtmlColor { name: "palevioletred", color: Rgb { r: 219, g: 112, b: 147 } },
        HtmlColor { name: "papayawhip", color: Rgb { r: 255, g: 239, b: 213 } },
        HtmlColor { name: "peachpuff", color: Rgb { r: 255, g: 218, b: 185 } },
        HtmlColor { name: "peru", color: Rgb { r: 205, g: 133, b: 63 } },
        HtmlColor { name: "pink", color: Rgb { r: 255, g: 192, b: 203 } },
        HtmlColor { name: "plum", color: Rgb { r: 221, g: 160, b: 221 } },
        HtmlColor { name: "powderblue", color: Rgb { r: 176, g: 224, b: 230 } },
        HtmlColor { name: "purple", color: Rgb { r: 128, g: 0, b: 128 } },
        HtmlColor { name: "red", color: Rgb { r: 255, g: 0, b: 0 } },
        HtmlColor { name: "rosybrown", color: Rgb { r: 188, g: 143, b: 143 } },
        HtmlColor { name: "royalblue", color: Rgb { r: 65, g: 105, b: 225 } },
        HtmlColor { name: "saddlebrown", color: Rgb { r: 139, g: 69, b: 19 } },
        HtmlColor { name: "salmon", color: Rgb { r: 250, g: 128, b: 114 } },
        HtmlColor { name: "sandybrown", color: Rgb { r: 244, g: 164, b: 96 } },
        HtmlColor { name: "seagreen", color: Rgb { r: 46, g: 139, b: 87 } },
        HtmlColor { name: "seashell", color: Rgb { r: 255, g: 245, b: 238 } },
        HtmlColor { name: "sienna", color: Rgb { r: 160, g: 82, b: 45 } },
        HtmlColor { name: "silver", color: Rgb { r: 192, g: 192, b: 192 } },
        HtmlColor { name: "skyblue", color: Rgb { r: 135, g: 206, b: 235 } },
        HtmlColor { name: "slateblue", color: Rgb { r: 106, g: 90, b: 205 } },
        HtmlColor { name: "slategray", color: Rgb { r: 112, g: 128, b: 144 } },
        HtmlColor { name: "snow", color: Rgb { r: 255, g: 250, b: 250 } },
        HtmlColor { name: "springgreen", color: Rgb { r: 0, g: 255, b: 127 } },
        HtmlColor { name: "steelblue", color: Rgb { r: 70, g: 130, b: 180 } },
        HtmlColor { name: "tan", color: Rgb { r: 210, g: 180, b: 140 } },
        HtmlColor { name: "teal", color: Rgb { r: 0, g: 128, b: 128 } },
        HtmlColor { name: "thistle", color: Rgb { r: 216, g: 191, b: 216 } },
        HtmlColor { name: "tomato", color: Rgb { r: 255, g: 99, b: 71 } },
        HtmlColor { name: "turquoise", color: Rgb { r: 64, g: 224, b: 208 } },
        HtmlColor { name: "violet", color: Rgb { r: 238, g: 130, b: 238 } },
        HtmlColor { name: "wheat", color: Rgb { r: 245, g: 222, b: 179 } },
        HtmlColor { name: "white", color: Rgb { r: 255, g: 255, b: 255 } },
        HtmlColor { name: "whitesmoke", color: Rgb { r: 245, g: 245, b: 245 } },
        HtmlColor { name: "yellow", color: Rgb { r: 255, g: 255, b: 0 } },
        HtmlColor { name: "yellowgreen", color: Rgb { r: 154, g: 205, b: 50 } },
    ];
    assert(res@ =~= catalog());
    res
}


/// The names of the named colours, in the order of [`catalog`].
pub open spec fn catalog_names() -> Seq<&'static str> {
    catalog().map_values(|c: HtmlColor| c.name)
}

/// The values of the named colours, in the order of [`catalog`].
pub open spec fn catalog_colors() -> Seq<Rgb> {
    catalog().map_values(|c: HtmlColor| c.color)
}

/// Splits the first `N` named colours into their names and their values.
pub fn __split_colors_arr<const N: usize>() -> (res: ([&'static str; N], [Rgb; N]))
    requires
        N <= COLORS_LEN,
    ensures
        res.0@ == catalog_names().take(N as int),
        res.1@ == catalog_colors().take(N as int),
{
    let all = colors();
    let mut names = [""; N];
    let mut values = [Rgb::new(0, 0, 0); N];
    let mut idx: usize = 0;
    while idx < N
        invariant
            idx <= N <= COLORS_LEN,
            all@ == catalog(),
            forall|k: int| 0 <= k < idx ==> names@[k] == catalog()[k].name,
            forall|k: int| 0 <= k < idx ==> values@[k] == catalog()[k].color,
        decreases N - idx,
    {
        names[idx] = all[idx].name;
        values[idx] = all[idx].color;
        idx += 1;
    }
    assert(names@ =~= catalog_names().take(N as int));
    assert(values@ =~= catalog_colors().take(N as int));
    (names, values)
}

/// The names of the named colours, in the order of [`catalog`].
pub fn only_names() -> (res: [&'static str; COLORS_LEN])
    ensures
        res@ == catalog_names(),
{
    let res = __split_colors_arr::<COLORS_LEN>().0;
    assert(catalog_names().take(COLORS_LEN as int) =~= catalog_names());
    res
}

/// The values of the named colours, in the order of [`catalog`].
pub fn only_colors() -> (res: [Rgb; COLORS_LEN])
    ensures
        res@ == catalog_colors(),
{
    let res = __split_colors_arr::<COLORS_LEN>().1;
    assert(catalog_colors().take(COLORS_LEN as int) =~= catalog_colors());
    res
}

/// Finds the named colour closest to `target` under `alg`; of several at
/// the least distance, the one that comes first in [`catalog`].
pub fn find_closest<T: ColorDistance + ?Sized>(alg: &T, target: Rgb) -> (res: HtmlColor)
    ensures
        exists|i: int|
            is_first_minimum(distances(alg, target, catalog_colors()), i) && res
                == #[trigger] catalog()[i],
{
    let values = only_colors();
    let all = colors();
    let idx = alg.find_closest(target, values.as_slice()).unwrap();
    assert(Seq::new(values@.len(), |k: int| alg.dist_spec(target, values@[k]) as int)
        =~= distances(alg, target, catalog_colors()));
    all[idx]
}

/// Whether `i` is the place of the first named colour whose value is
/// `target`.
pub open spec fn is_first_exact(target: Rgb, i: int) -> bool {
    &&& 0 <= i < catalog().len()
    &&& catalog()[i].color == target
    &&& forall|j: int| 0 <= j < i ==> (#[trigger] catalog()[j]).color != target
}

/// Finds the name of the colour whose value is exactly `target`: that of the
/// first such named colour, or `None` if no named colour has this value.
pub fn find_exact(target: Rgb) -> (res: Option<&'static str>)
    ensures
        res is None <==> forall|i: int|
            0 <= i < catalog().len() ==> (#[trigger] catalog()[i]).color != target,
        res matches Some(name) ==> exists|i: int|
            is_first_exact(target, i) && name == (#[trigger] catalog()[i]).name,
{
    let all = colors();
    let mut idx: usize = 0;
    while idx < COLORS_LEN
        invariant
            idx <= COLORS_LEN,
            all@ == catalog(),
            catalog().len() == COLORS_LEN,
            forall|j: int| 0 <= j < idx ==> (#[trigger] catalog()[j]).color != target,
        decreases COLORS_LEN - idx,
    {
        if target == all[idx].color {
            assert(is_first_exact(target, idx as int));
            return Some(all[idx].name);
        }
        idx += 1;
    }
    None
}

/// No colour value has two names: two places of the catalog that hold the
/// same value are one place.
pub proof fn lemma_catalog_values_distinct(i: int, j: int)
    requires
        0 <= i < catalog().len(),
        0 <= j < catalog().len(),
        catalog()[i].color == catalog()[j].color,
    ensures
        i == j,
{
}

/// A named colour is its own closest match under any metric that gives
/// zero to equal colours alone.
pub proof fn lemma_exact_match_is_closest<T: ColorDistance + ?Sized>(alg: &T, i: int)
    requires
        0 <= i < catalog().len(),
        forall|c1: Rgb, c2: Rgb| #[trigger] alg.dist_spec(c1, c2) == 0 <==> c1 == c2,
    ensures
        is_first_minimum(distances(alg, catalog()[i].color, catalog_colors()), i),
{
    let target = catalog()[i].color;
    let keys = distances(alg, target, catalog_colors());
    assert(keys[i] == alg.dist_spec(target, target));
    assert forall|j: int| 0 <= j < i implies keys[i] < #[trigger] keys[j] by {
        assert(keys[j] == alg.dist_spec(target, catalog()[j].color));
        if catalog()[j].color == target {
            lemma_catalog_values_distinct(i, j);
        }
    }
}

} // verus!
