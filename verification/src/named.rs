//! The fixed table of SVG color names.

use vstd::prelude::*;
use vstd::string::StringSliceAdditionalSpecFns;

use crate::blob::bytes_eq;
use crate::color::{Color, rgb8_spec};

verus! {

/// The table rows from `aliceblue` to `cyan`.
pub open spec fn named_color_spec_a_c(s: Seq<u8>) -> Option<Color> {
    if s == "aliceblue".spec_bytes() {
        Some(rgb8_spec(240, 248, 255))
    } else if s == "antiquewhite".spec_bytes() {
        Some(rgb8_spec(250, 235, 215))
    } else if s == "aqua".spec_bytes() {
        Some(rgb8_spec(0, 255, 255))
    } else if s == "aquamarine".spec_bytes() {
        Some(rgb8_spec(127, 255, 212))
    } else if s == "azure".spec_bytes() {
        Some(rgb8_spec(240, 255, 255))
    } else if s == "beige".spec_bytes() {
        Some(rgb8_spec(245, 245, 220))
    } else if s == "bisque".spec_bytes() {
        Some(rgb8_spec(255, 228, 196))
    } else if s == "black".spec_bytes() {
        Some(rgb8_spec(0, 0, 0))
    } else if s == "blanchedalmond".spec_bytes() {
        Some(rgb8_spec(255, 235, 205))
    } else if s == "blue".spec_bytes() {
        Some(rgb8_spec(0, 0, 255))
    } else if s == "blueviolet".spec_bytes() {
        Some(rgb8_spec(138, 43, 226))
    } else if s == "brown".spec_bytes() {
        Some(rgb8_spec(165, 42, 42))
    } else if s == "burlywood".spec_bytes() {
        Some(rgb8_spec(222, 184, 135))
    } else if s == "cadetblue".spec_bytes() {
        Some(rgb8_spec(95, 158, 160))
    } else if s == "chartreuse".spec_bytes() {
        Some(rgb8_spec(127, 255, 0))
    } else if s == "chocolate".spec_bytes() {
        Some(rgb8_spec(210, 105, 30))
    } else if s == "coral".spec_bytes() {
        Some(rgb8_spec(255, 127, 80))
    } else if s == "cornflowerblue".spec_bytes() {
        Some(rgb8_spec(100, 149, 237))
    } else if s == "cornsilk".spec_bytes() {
        Some(rgb8_spec(255, 248, 220))
    } else if s == "crimson".spec_bytes() {
        Some(rgb8_spec(220, 20, 60))
    } else if s == "cyan".spec_bytes() {
        Some(rgb8_spec(0, 255, 255))
    } else {
        None
    }
}

/// Looks the name up among the rows from `aliceblue` to `cyan`.
fn named_color_a_c(s: &[u8]) -> (r: Option<Color>)
    ensures
        r == named_color_spec_a_c(s@),
{
    if bytes_eq(s, "aliceblue".as_bytes()) {
        Some(Color::rgb8(240, 248, 255))
    } else if bytes_eq(s, "antiquewhite".as_bytes()) {
        Some(Color::rgb8(250, 235, 215))
    } else if bytes_eq(s, "aqua".as_bytes()) {
        Some(Color::rgb8(0, 255, 255))
    } else if bytes_eq(s, "aquamarine".as_bytes()) {
        Some(Color::rgb8(127, 255, 212))
    } else if bytes_eq(s, "azure".as_bytes()) {
        Some(Color::rgb8(240, 255, 255))
    } else if bytes_eq(s, "beige".as_bytes()) {
        Some(Color::rgb8(245, 245, 220))
    } else if bytes_eq(s, "bisque".as_bytes()) {
        Some(Color::rgb8(255, 228, 196))
    } else if bytes_eq(s, "black".as_bytes()) {
        Some(Color::rgb8(0, 0, 0))
    } else if bytes_eq(s, "blanchedalmond".as_bytes()) {
        Some(Color::rgb8(255, 235, 205))
    } else if bytes_eq(s, "blue".as_bytes()) {
        Some(Color::rgb8(0, 0, 255))
    } else if bytes_eq(s, "blueviolet".as_bytes()) {
        Some(Color::rgb8(138, 43, 226))
    } else if bytes_eq(s, "brown".as_bytes()) {
        Some(Color::rgb8(165, 42, 42))
    } else if bytes_eq(s, "burlywood".as_bytes()) {
        Some(Color::rgb8(222, 184, 135))
    } else if bytes_eq(s, "cadetblue".as_bytes()) {
        Some(Color::rgb8(95, 158, 160))
    } else if bytes_eq(s, "chartreuse".as_bytes()) {
        Some(Color::rgb8(127, 255, 0))
    } else if bytes_eq(s, "chocolate".as_bytes()) {
        Some(Color::rgb8(210, 105, 30))
    } else if bytes_eq(s, "coral".as_bytes()) {
        Some(Color::rgb8(255, 127, 80))
    } else if bytes_eq(s, "cornflowerblue".as_bytes()) {
        Some(Color::rgb8(100, 149, 237))
    } else if bytes_eq(s, "cornsilk".as_bytes()) {
        Some(Color::rgb8(255, 248, 220))
    } else if bytes_eq(s, "crimson".as_bytes()) {
        Some(Color::rgb8(220, 20, 60))
    } else if bytes_eq(s, "cyan".as_bytes()) {
        Some(Color::rgb8(0, 255, 255))
    } else {
        None
    }
}

/// The table rows from `darkblue` to `linen`.
pub open spec fn named_color_spec_d_l(s: Seq<u8>) -> Option<Color> {
    if s == "darkblue".spec_bytes() {
        Some(rgb8_spec(0, 0, 139))
    } else if s == "darkcyan".spec_bytes() {
        Some(rgb8_spec(0, 139, 139))
    } else if s == "darkgoldenrod".spec_bytes() {
        Some(rgb8_spec(184, 134, 11))
    } else if s == "darkgray".spec_bytes() {
        Some(rgb8_spec(169, 169, 169))
    } else if s == "darkgreen".spec_bytes() {
        Some(rgb8_spec(0, 100, 0))
    } else if s == "darkkhaki".spec_bytes() {
        Some(rgb8_spec(189, 183, 107))
    } else if s == "darkmagenta".spec_bytes() {
        Some(rgb8_spec(139, 0, 139))
    } else if s == "darkolivegreen".spec_bytes() {
        Some(rgb8_spec(85, 107, 47))
    } else if s == "darkorange".spec_bytes() {
        Some(rgb8_spec(255, 140, 0))
    } else if s == "darkorchid".spec_bytes() {
        Some(rgb8_spec(153, 50, 204))
    } else if s == "darkred".spec_bytes() {
        Some(rgb8_spec(139, 0, 0))
    } else if s == "darksalmon".spec_bytes() {
        Some(rgb8_spec(233, 150, 122))
    } else if s == "darkseagreen".spec_bytes() {
        Some(rgb8_spec(143, 188, 143))
    } else if s == "darkslateblue".spec_bytes() {
        Some(rgb8_spec(72, 61, 139))
    } else if s == "darkslategray".spec_bytes() {
        Some(rgb8_spec(47, 79, 79))
    } else if s == "darkturquoise".spec_bytes() {
        Some(rgb8_spec(0, 206, 209))
    } else if s == "darkviolet".spec_bytes() {
        Some(rgb8_spec(148, 0, 211))
    } else if s == "deeppink".spec_bytes() {
        Some(rgb8_spec(255, 20, 147))
    } else if s == "deepskyblue".spec_bytes() {
        Some(rgb8_spec(0, 191, 255))
    } else if s == "dimgray".spec_bytes() {
        Some(rgb8_spec(105, 105, 105))
    } else if s == "dodgerblue".spec_bytes() {
        Some(rgb8_spec(30, 144, 255))
    } else if s == "firebrick".spec_bytes() {
        Some(rgb8_spec(178, 34, 34))
    } else if s == "floralwhite".spec_bytes() {
        Some(rgb8_spec(255, 250, 240))
    } else if s == "forestgreen".spec_bytes() {
        Some(rgb8_spec(34, 139, 34))
    } else if s == "fuchsia".spec_bytes() {
        Some(rgb8_spec(255, 0, 255))
    } else if s == "gainsboro".spec_bytes() {
        Some(rgb8_spec(220, 220, 220))
    } else if s == "ghostwhite".spec_bytes() {
        Some(rgb8_spec(248, 248, 255))
    } else if s == "gold".spec_bytes() {
        Some(rgb8_spec(255, 215, 0))
    } else if s == "goldenrod".spec_bytes() {
        Some(rgb8_spec(218, 165, 32))
    } else if s == "gray".spec_bytes() {
        Some(rgb8_spec(128, 128, 128))
    } else if s == "green".spec_bytes() {
        Some(rgb8_spec(0, 128, 0))
    } else if s == "greenyellow".spec_bytes() {
        Some(rgb8_spec(173, 255, 47))
    } else if s == "honeydew".spec_bytes() {
        Some(rgb8_spec(240, 255, 240))
    } else if s == "hotpink".spec_bytes() {
        Some(rgb8_spec(255, 105, 180))
    } else if s == "indianred".spec_bytes() {
        Some(rgb8_spec(205, 92, 92))
    } else if s == "indigo".spec_bytes() {
        Some(rgb8_spec(75, 0, 130))
    } else if s == "ivory".spec_bytes() {
        Some(rgb8_spec(255, 255, 240))
    } else if s == "khaki".spec_bytes() {
        Some(rgb8_spec(240, 230, 140))
    } else if s == "lavender".spec_bytes() {
        Some(rgb8_spec(230, 230, 250))
    } else if s == "lavenderblush".spec_bytes() {
        Some(rgb8_spec(255, 240, 245))
    } else if s == "lawngreen".spec_bytes() {
        Some(rgb8_spec(124, 252, 0))
    } else if s == "lemonchiffon".spec_bytes() {
        Some(rgb8_spec(255, 250, 205))
    } else if s == "lightblue".spec_bytes() {
        Some(rgb8_spec(173, 216, 230))
    } else if s == "lightcoral".spec_bytes() {
        Some(rgb8_spec(240, 128, 128))
    } else if s == "lightcyan".spec_bytes() {
        Some(rgb8_spec(224, 255, 255))
    } else if s == "lightgoldenrodyellow".spec_bytes() {
        Some(rgb8_spec(250, 250, 210))
    } else if s == "lightgray".spec_bytes() {
        Some(rgb8_spec(211, 211, 211))
    } else if s == "lightgreen".spec_bytes() {
        Some(rgb8_spec(144, 238, 144))
    } else if s == "lightpink".spec_bytes() {
        Some(rgb8_spec(255, 182, 193))
    } else if s == "lightsalmon".spec_bytes() {
        Some(rgb8_spec(255, 160, 122))
    } else if s == "lightseagreen".spec_bytes() {
        Some(rgb8_spec(32, 178, 170))
    } else if s == "lightskyblue".spec_bytes() {
        Some(rgb8_spec(135, 206, 250))
    } else if s == "lightslategray".spec_bytes() {
        Some(rgb8_spec(119, 136, 153))
    } else if s == "lightsteelblue".spec_bytes() {
        Some(rgb8_spec(176, 196, 222))
    } else if s == "lightyellow".spec_bytes() {
        Some(rgb8_spec(255, 255, 224))
    } else if s == "lime".spec_bytes() {
        Some(rgb8_spec(0, 255, 0))
    } else if s == "limegreen".spec_bytes() {
        Some(rgb8_spec(50, 205, 50))
    } else if s == "linen".spec_bytes() {
        Some(rgb8_spec(250, 240, 230))
    } else {
        None
    }
}

/// Looks the name up among the rows from `darkblue` to `linen`.
fn named_color_d_l(s: &[u8]) -> (r: Option<Color>)
    ensures
        r == named_color_spec_d_l(s@),
{
    if bytes_eq(s, "darkblue".as_bytes()) {
        Some(Color::rgb8(0, 0, 139))
    } else if bytes_eq(s, "darkcyan".as_bytes()) {
        Some(Color::rgb8(0, 139, 139))
    } else if bytes_eq(s, "darkgoldenrod".as_bytes()) {
        Some(Color::rgb8(184, 134, 11))
    } else if bytes_eq(s, "darkgray".as_bytes()) {
        Some(Color::rgb8(169, 169, 169))
    } else if bytes_eq(s, "darkgreen".as_bytes()) {
        Some(Color::rgb8(0, 100, 0))
    } else if bytes_eq(s, "darkkhaki".as_bytes()) {
        Some(Color::rgb8(189, 183, 107))
    } else if bytes_eq(s, "darkmagenta".as_bytes()) {
        Some(Color::rgb8(139, 0, 139))
    } else if bytes_eq(s, "darkolivegreen".as_bytes()) {
        Some(Color::rgb8(85, 107, 47))
    } else if bytes_eq(s, "darkorange".as_bytes()) {
        Some(Color::rgb8(255, 140, 0))
    } else if bytes_eq(s, "darkorchid".as_bytes()) {
        Some(Color::rgb8(153, 50, 204))
    } else if bytes_eq(s, "darkred".as_bytes()) {
        Some(Color::rgb8(139, 0, 0))
    } else if bytes_eq(s, "darksalmon".as_bytes()) {
        Some(Color::rgb8(233, 150, 122))
    } else if bytes_eq(s, "darkseagreen".as_bytes()) {
        Some(Color::rgb8(143, 188, 143))
    } else if bytes_eq(s, "darkslateblue".as_bytes()) {
        Some(Color::rgb8(72, 61, 139))
    } else if bytes_eq(s, "darkslategray".as_bytes()) {
        Some(Color::rgb8(47, 79, 79))
    } else if bytes_eq(s, "darkturquoise".as_bytes()) {
        Some(Color::rgb8(0, 206, 209))
    } else if bytes_eq(s, "darkviolet".as_bytes()) {
        Some(Color::rgb8(148, 0, 211))
    } else if bytes_eq(s, "deeppink".as_bytes()) {
        Some(Color::rgb8(255, 20, 147))
    } else if bytes_eq(s, "deepskyblue".as_bytes()) {
        Some(Color::rgb8(0, 191, 255))
    } else if bytes_eq(s, "dimgray".as_bytes()) {
        Some(Color::rgb8(105, 105, 105))
    } else if bytes_eq(s, "dodgerblue".as_bytes()) {
        Some(Color::rgb8(30, 144, 255))
    } else if bytes_eq(s, "firebrick".as_bytes()) {
        Some(Color::rgb8(178, 34, 34))
    } else if bytes_eq(s, "floralwhite".as_bytes()) {
        Some(Color::rgb8(255, 250, 240))
    } else if bytes_eq(s, "forestgreen".as_bytes()) {
        Some(Color::rgb8(34, 139, 34))
    } else if bytes_eq(s, "fuchsia".as_bytes()) {
        Some(Color::rgb8(255, 0, 255))
    } else if bytes_eq(s, "gainsboro".as_bytes()) {
        Some(Color::rgb8(220, 220, 220))
    } else if bytes_eq(s, "ghostwhite".as_bytes()) {
        Some(Color::rgb8(248, 248, 255))
    } else if bytes_eq(s, "gold".as_bytes()) {
        Some(Color::rgb8(255, 215, 0))
    } else if bytes_eq(s, "goldenrod".as_bytes()) {
        Some(Color::rgb8(218, 165, 32))
    } else if bytes_eq(s, "gray".as_bytes()) {
        Some(Color::rgb8(128, 128, 128))
    } else if bytes_eq(s, "green".as_bytes()) {
        Some(Color::rgb8(0, 128, 0))
    } else if bytes_eq(s, "greenyellow".as_bytes()) {
        Some(Color::rgb8(173, 255, 47))
    } else if bytes_eq(s, "honeydew".as_bytes()) {
        Some(Color::rgb8(240, 255, 240))
    } else if bytes_eq(s, "hotpink".as_bytes()) {
        Some(Color::rgb8(255, 105, 180))
    } else if bytes_eq(s, "indianred".as_bytes()) {
        Some(Color::rgb8(205, 92, 92))
    } else if bytes_eq(s, "indigo".as_bytes()) {
        Some(Color::rgb8(75, 0, 130))
    } else if bytes_eq(s, "ivory".as_bytes()) {
        Some(Color::rgb8(255, 255, 240))
    } else if bytes_eq(s, "khaki".as_bytes()) {
        Some(Color::rgb8(240, 230, 140))
    } else if bytes_eq(s, "lavender".as_bytes()) {
        Some(Color::rgb8(230, 230, 250))
    } else if bytes_eq(s, "lavenderblush".as_bytes()) {
        Some(Color::rgb8(255, 240, 245))
    } else if bytes_eq(s, "lawngreen".as_bytes()) {
        Some(Color::rgb8(124, 252, 0))
    } else if bytes_eq(s, "lemonchiffon".as_bytes()) {
        Some(Color::rgb8(255, 250, 205))
    } else if bytes_eq(s, "lightblue".as_bytes()) {
        Some(Color::rgb8(173, 216, 230))
    } else if bytes_eq(s, "lightcoral".as_bytes()) {
        Some(Color::rgb8(240, 128, 128))
    } else if bytes_eq(s, "lightcyan".as_bytes()) {
        Some(Color::rgb8(224, 255, 255))
    } else if bytes_eq(s, "lightgoldenrodyellow".as_bytes()) {
        Some(Color::rgb8(250, 250, 210))
    } else if bytes_eq(s, "lightgray".as_bytes()) {
        Some(Color::rgb8(211, 211, 211))
    } else if bytes_eq(s, "lightgreen".as_bytes()) {
        Some(Color::rgb8(144, 238, 144))
    } else if bytes_eq(s, "lightpink".as_bytes()) {
        Some(Color::rgb8(255, 182, 193))
    } else if bytes_eq(s, "lightsalmon".as_bytes()) {
        Some(Color::rgb8(255, 160, 122))
    } else if bytes_eq(s, "lightseagreen".as_bytes()) {
        Some(Color::rgb8(32, 178, 170))
    } else if bytes_eq(s, "lightskyblue".as_bytes()) {
        Some(Color::rgb8(135, 206, 250))
    } else if bytes_eq(s, "lightslategray".as_bytes()) {
        Some(Color::rgb8(119, 136, 153))
    } else if bytes_eq(s, "lightsteelblue".as_bytes()) {
        Some(Color::rgb8(176, 196, 222))
    } else if bytes_eq(s, "lightyellow".as_bytes()) {
        Some(Color::rgb8(255, 255, 224))
    } else if bytes_eq(s, "lime".as_bytes()) {
        Some(Color::rgb8(0, 255, 0))
    } else if bytes_eq(s, "limegreen".as_bytes()) {
        Some(Color::rgb8(50, 205, 50))
    } else if bytes_eq(s, "linen".as_bytes()) {
        Some(Color::rgb8(250, 240, 230))
    } else {
        None
    }
}

/// The table rows from `magenta` to `royalblue`.
pub open spec fn named_color_spec_m_r(s: Seq<u8>) -> Option<Color> {
    if s == "magenta".spec_bytes() {
        Some(rgb8_spec(255, 0, 255))
    } else if s == "maroon".spec_bytes() {
        Some(rgb8_spec(128, 0, 0))
    } else if s == "mediumaquamarine".spec_bytes() {
        Some(rgb8_spec(102, 205, 170))
    } else if s == "mediumblue".spec_bytes() {
        Some(rgb8_spec(0, 0, 205))
    } else if s == "mediumorchid".spec_bytes() {
        Some(rgb8_spec(186, 85, 211))
    } else if s == "mediumpurple".spec_bytes() {
        Some(rgb8_spec(147, 112, 219))
    } else if s == "mediumseagreen".spec_bytes() {
        Some(rgb8_spec(60, 179, 113))
    } else if s == "mediumslateblue".spec_bytes() {
        Some(rgb8_spec(123, 104, 238))
    } else if s == "mediumspringgreen".spec_bytes() {
        Some(rgb8_spec(0, 250, 154))
    } else if s == "mediumturquoise".spec_bytes() {
        Some(rgb8_spec(72, 209, 204))
    } else if s == "mediumvioletred".spec_bytes() {
        Some(rgb8_spec(199, 21, 133))
    } else if s == "midnightblue".spec_bytes() {
        Some(rgb8_spec(25, 25, 112))
    } else if s == "mintcream".spec_bytes() {
        Some(rgb8_spec(245, 255, 250))
    } else if s == "mistyrose".spec_bytes() {
        Some(rgb8_spec(255, 228, 225))
    } else if s == "moccasin".spec_bytes() {
        Some(rgb8_spec(255, 228, 181))
    } else if s == "navajowhite".spec_bytes() {
        Some(rgb8_spec(255, 222, 173))
    } else if s == "navy".spec_bytes() {
        Some(rgb8_spec(0, 0, 128))
    } else if s == "oldlace".spec_bytes() {
        Some(rgb8_spec(253, 245, 230))
    } else if s == "olive".spec_bytes() {
        Some(rgb8_spec(128, 128, 0))
    } else if s == "olivedrab".spec_bytes() {
        Some(rgb8_spec(107, 142, 35))
    } else if s == "orange".spec_bytes() {
        Some(rgb8_spec(255, 165, 0))
    } else if s == "orangered".spec_bytes() {
        Some(rgb8_spec(255, 69, 0))
    } else if s == "orchid".spec_bytes() {
        Some(rgb8_spec(218, 112, 214))
    } else if s == "palegoldenrod".spec_bytes() {
        Some(rgb8_spec(238, 232, 170))
    } else if s == "palegreen".spec_bytes() {
        Some(rgb8_spec(152, 251, 152))
    } else if s == "paleturquoise".spec_bytes() {
        Some(rgb8_spec(175, 238, 238))
    } else if s == "palevioletred".spec_bytes() {
        Some(rgb8_spec(219, 112, 147))
    } else if s == "papayawhip".spec_bytes() {
        Some(rgb8_spec(255, 239, 213))
    } else if s == "peachpuff".spec_bytes() {
        Some(rgb8_spec(255, 218, 185))
    } else if s == "peru".spec_bytes() {
        Some(rgb8_spec(205, 133, 63))
    } else if s == "pink".spec_bytes() {
        Some(rgb8_spec(255, 192, 203))
    } else if s == "plum".spec_bytes() {
        Some(rgb8_spec(221, 160, 221))
    } else if s == "powderblue".spec_bytes() {
        Some(rgb8_spec(176, 224, 230))
    } else if s == "purple".spec_bytes() {
        Some(rgb8_spec(128, 0, 128))
    } else if s == "rebeccapurple".spec_bytes() {
        Some(rgb8_spec(102, 51, 153))
    } else if s == "red".spec_bytes() {
        Some(rgb8_spec(255, 0, 0))
    } else if s == "rosybrown".spec_bytes() {
        Some(rgb8_spec(188, 143, 143))
    } else if s == "royalblue".spec_bytes() {
        Some(rgb8_spec(65, 105, 225))
    } else {
        None
    }
}

/// Looks the name up among the rows from `magenta` to `royalblue`.
fn named_color_m_r(s: &[u8]) -> (r: Option<Color>)
    ensures
        r == named_color_spec_m_r(s@),
{
    if bytes_eq(s, "magenta".as_bytes()) {
        Some(Color::rgb8(255, 0, 255))
    } else if bytes_eq(s, "maroon".as_bytes()) {
        Some(Color::rgb8(128, 0, 0))
    } else if bytes_eq(s, "mediumaquamarine".as_bytes()) {
        Some(Color::rgb8(102, 205, 170))
    } else if bytes_eq(s, "mediumblue".as_bytes()) {
        Some(Color::rgb8(0, 0, 205))
    } else if bytes_eq(s, "mediumorchid".as_bytes()) {
        Some(Color::rgb8(186, 85, 211))
    } else if bytes_eq(s, "mediumpurple".as_bytes()) {
        Some(Color::rgb8(147, 112, 219))
    } else if bytes_eq(s, "mediumseagreen".as_bytes()) {
        Some(Color::rgb8(60, 179, 113))
    } else if bytes_eq(s, "mediumslateblue".as_bytes()) {
        Some(Color::rgb8(123, 104, 238))
    } else if bytes_eq(s, "mediumspringgreen".as_bytes()) {
        Some(Color::rgb8(0, 250, 154))
    } else if bytes_eq(s, "mediumturquoise".as_bytes()) {
        Some(Color::rgb8(72, 209, 204))
    } else if bytes_eq(s, "mediumvioletred".as_bytes()) {
        Some(Color::rgb8(199, 21, 133))
    } else if bytes_eq(s, "midnightblue".as_bytes()) {
        Some(Color::rgb8(25, 25, 112))
    } else if bytes_eq(s, "mintcream".as_bytes()) {
        Some(Color::rgb8(245, 255, 250))
    } else if bytes_eq(s, "mistyrose".as_bytes()) {
        Some(Color::rgb8(255, 228, 225))
    } else if bytes_eq(s, "moccasin".as_bytes()) {
        Some(Color::rgb8(255, 228, 181))
    } else if bytes_eq(s, "navajowhite".as_bytes()) {
        Some(Color::rgb8(255, 222, 173))
    } else if bytes_eq(s, "navy".as_bytes()) {
        Some(Color::rgb8(0, 0, 128))
    } else if bytes_eq(s, "oldlace".as_bytes()) {
        Some(Color::rgb8(253, 245, 230))
    } else if bytes_eq(s, "olive".as_bytes()) {
        Some(Color::rgb8(128, 128, 0))
    } else if bytes_eq(s, "olivedrab".as_bytes()) {
        Some(Color::rgb8(107, 142, 35))
    } else if bytes_eq(s, "orange".as_bytes()) {
        Some(Color::rgb8(255, 165, 0))
    } else if bytes_eq(s, "orangered".as_bytes()) {
        Some(Color::rgb8(255, 69, 0))
    } else if bytes_eq(s, "orchid".as_bytes()) {
        Some(Color::rgb8(218, 112, 214))
    } else if bytes_eq(s, "palegoldenrod".as_bytes()) {
        Some(Color::rgb8(238, 232, 170))
    } else if bytes_eq(s, "palegreen".as_bytes()) {
        Some(Color::rgb8(152, 251, 152))
    } else if bytes_eq(s, "paleturquoise".as_bytes()) {
        Some(Color::rgb8(175, 238, 238))
    } else if bytes_eq(s, "palevioletred".as_bytes()) {
        Some(Color::rgb8(219, 112, 147))
    } else if bytes_eq(s, "papayawhip".as_bytes()) {
        Some(Color::rgb8(255, 239, 213))
    } else if bytes_eq(s, "peachpuff".as_bytes()) {
        Some(Color::rgb8(255, 218, 185))
    } else if bytes_eq(s, "peru".as_bytes()) {
        Some(Color::rgb8(205, 133, 63))
    } else if bytes_eq(s, "pink".as_bytes()) {
        Some(Color::rgb8(255, 192, 203))
    } else if bytes_eq(s, "plum".as_bytes()) {
        Some(Color::rgb8(221, 160, 221))
    } else if bytes_eq(s, "powderblue".as_bytes()) {
        Some(Color::rgb8(176, 224, 230))
    } else if bytes_eq(s, "purple".as_bytes()) {
        Some(Color::rgb8(128, 0, 128))
    } else if bytes_eq(s, "rebeccapurple".as_bytes()) {
        Some(Color::rgb8(102, 51, 153))
    } else if bytes_eq(s, "red".as_bytes()) {
        Some(Color::rgb8(255, 0, 0))
    } else if bytes_eq(s, "rosybrown".as_bytes()) {
        Some(Color::rgb8(188, 143, 143))
    } else if bytes_eq(s, "royalblue".as_bytes()) {
        Some(Color::rgb8(65, 105, 225))
    } else {
        None
    }
}

/// The table rows from `saddlebrown` to `yellowgreen`.
pub open spec fn named_color_spec_s_z(s: Seq<u8>) -> Option<Color> {
    if s == "saddlebrown".spec_bytes() {
        Some(rgb8_spec(139, 69, 19))
    } else if s == "salmon".spec_bytes() {
        Some(rgb8_spec(250, 128, 114))
    } else if s == "sandybrown".spec_bytes() {
        Some(rgb8_spec(244, 164, 96))
    } else if s == "seagreen".spec_bytes() {
        Some(rgb8_spec(46, 139, 87))
    } else if s == "seashell".spec_bytes() {
        Some(rgb8_spec(255, 245, 238))
    } else if s == "sienna".spec_bytes() {
        Some(rgb8_spec(160, 82, 45))
    } else if s == "silver".spec_bytes() {
        Some(rgb8_spec(192, 192, 192))
    } else if s == "skyblue".spec_bytes() {
        Some(rgb8_spec(135, 206, 235))
    } else if s == "slateblue".spec_bytes() {
        Some(rgb8_spec(106, 90, 205))
    } else if s == "slategray".spec_bytes() {
        Some(rgb8_spec(112, 128, 144))
    } else if s == "snow".spec_bytes() {
        Some(rgb8_spec(255, 250, 250))
    } else if s == "springgreen".spec_bytes() {
        Some(rgb8_spec(0, 255, 127))
    } else if s == "steelblue".spec_bytes() {
        Some(rgb8_spec(70, 130, 180))
    } else if s == "tan".spec_bytes() {
        Some(rgb8_spec(210, 180, 140))
    } else if s == "teal".spec_bytes() {
        Some(rgb8_spec(0, 128, 128))
    } else if s == "thistle".spec_bytes() {
        Some(rgb8_spec(216, 191, 216))
    } else if s == "tomato".spec_bytes() {
        Some(rgb8_spec(255, 99, 71))
    } else if s == "transparent".spec_bytes() {
        Some(Color { red: 0, green: 0, blue: 0, alpha: 0 })
    } else if s == "turquoise".spec_bytes() {
        Some(rgb8_spec(64, 224, 208))
    } else if s == "violet".spec_bytes() {
        Some(rgb8_spec(238, 130, 238))
    } else if s == "wheat".spec_bytes() {
        Some(rgb8_spec(245, 222, 179))
    } else if s == "white".spec_bytes() {
        Some(rgb8_spec(255, 255, 255))
    } else if s == "whitesmoke".spec_bytes() {
        Some(rgb8_spec(245, 245, 245))
    } else if s == "yellow".spec_bytes() {
        Some(rgb8_spec(255, 255, 0))
    } else if s == "yellowgreen".spec_bytes() {
        Some(rgb8_spec(154, 205, 50))
    } else {
        None
    }
}

/// Looks the name up among the rows from `saddlebrown` to `yellowgreen`.
fn named_color_s_z(s: &[u8]) -> (r: Option<Color>)
    ensures
        r == named_color_spec_s_z(s@),
{
    if bytes_eq(s, "saddlebrown".as_bytes()) {
        Some(Color::rgb8(139, 69, 19))
    } else if bytes_eq(s, "salmon".as_bytes()) {
        Some(Color::rgb8(250, 128, 114))
    } else if bytes_eq(s, "sandybrown".as_bytes()) {
        Some(Color::rgb8(244, 164, 96))
    } else if bytes_eq(s, "seagreen".as_bytes()) {
        Some(Color::rgb8(46, 139, 87))
    } else if bytes_eq(s, "seashell".as_bytes()) {
        Some(Color::rgb8(255, 245, 238))
    } else if bytes_eq(s, "sienna".as_bytes()) {
        Some(Color::rgb8(160, 82, 45))
    } else if bytes_eq(s, "silver".as_bytes()) {
        Some(Color::rgb8(192, 192, 192))
    } else if bytes_eq(s, "skyblue".as_bytes()) {
        Some(Color::rgb8(135, 206, 235))
    } else if bytes_eq(s, "slateblue".as_bytes()) {
        Some(Color::rgb8(106, 90, 205))
    } else if bytes_eq(s, "slategray".as_bytes()) {
        Some(Color::rgb8(112, 128, 144))
    } else if bytes_eq(s, "snow".as_bytes()) {
        Some(Color::rgb8(255, 250, 250))
    } else if bytes_eq(s, "springgreen".as_bytes()) {
        Some(Color::rgb8(0, 255, 127))
    } else if bytes_eq(s, "steelblue".as_bytes()) {
        Some(Color::rgb8(70, 130, 180))
    } else if bytes_eq(s, "tan".as_bytes()) {
        Some(Color::rgb8(210, 180, 140))
    } else if bytes_eq(s, "teal".as_bytes()) {
        Some(Color::rgb8(0, 128, 128))
    } else if bytes_eq(s, "thistle".as_bytes()) {
        Some(Color::rgb8(216, 191, 216))
    } else if bytes_eq(s, "tomato".as_bytes()) {
        Some(Color::rgb8(255, 99, 71))
    } else if bytes_eq(s, "transparent".as_bytes()) {
        Some(Color { red: 0, green: 0, blue: 0, alpha: 0 })
    } else if bytes_eq(s, "turquoise".as_bytes()) {
        Some(Color::rgb8(64, 224, 208))
    } else if bytes_eq(s, "violet".as_bytes()) {
        Some(Color::rgb8(238, 130, 238))
    } else if bytes_eq(s, "wheat".as_bytes()) {
        Some(Color::rgb8(245, 222, 179))
    } else if bytes_eq(s, "white".as_bytes()) {
        Some(Color::rgb8(255, 255, 255))
    } else if bytes_eq(s, "whitesmoke".as_bytes()) {
        Some(Color::rgb8(245, 245, 245))
    } else if bytes_eq(s, "yellow".as_bytes()) {
        Some(Color::rgb8(255, 255, 0))
    } else if bytes_eq(s, "yellowgreen".as_bytes()) {
        Some(Color::rgb8(154, 205, 50))
    } else {
        None
    }
}

/// The color a lowercase SVG color name denotes, or nothing when the
/// bytes are no name of the table. The name `transparent` denotes clear
/// black; every other name denotes an opaque 8-bit sRGB triple.
pub open spec fn named_color_spec(s: Seq<u8>) -> Option<Color> {
    if named_color_spec_a_c(s) is Some {
        named_color_spec_a_c(s)
    } else if named_color_spec_d_l(s) is Some {
        named_color_spec_d_l(s)
    } else if named_color_spec_m_r(s) is Some {
        named_color_spec_m_r(s)
    } else {
        named_color_spec_s_z(s)
    }
}

/// Looks a lowercase SVG color name up in the fixed table.
pub(crate) fn named_color(s: &[u8]) -> (r: Option<Color>)
    ensures
        r == named_color_spec(s@),
{
    let r_a_c = named_color_a_c(s);
    if r_a_c.is_some() {
        return r_a_c;
    }
    let r_d_l = named_color_d_l(s);
    if r_d_l.is_some() {
        return r_d_l;
    }
    let r_m_r = named_color_m_r(s);
    if r_m_r.is_some() {
        return r_m_r;
    }
    named_color_s_z(s)
}

} // verus!
