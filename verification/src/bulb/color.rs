//! Colour names accepted in chat and the sRGB colours they stand for.

use vstd::prelude::*;
use crate::text::{
    is_white_space, lemma_ascii_upper_ws, trailing_ws, ascii_upper_char, lemma_trimmed_idempotent, leading_ws, lemma_leading_ws_bound, lemma_leading_ws_no_overlap, lemma_trailing_ws_bound,
};
use crate::text::{
    all_white_space, ascii_lower, ascii_lowercase, ascii_upper, lemma_trimmed_ascii_upper,
    lemma_trimmed_padding, str_eq, to_uppercase, trim_str, trimmed, uppercase,
};

verus! {

/// An 8-bit sRGB colour.
#[derive(Clone, Copy, Debug, PartialEq, Eq, Structural)]
pub struct Rgb {
    pub red: u8,
    pub green: u8,
    pub blue: u8,
}

/// The upper-case colour names that are accepted: the SVG/CSS3 keyword
/// colours that have a hue (the greys, black, white, silver, gainsboro,
/// ghost white, snow and white smoke are not among them).
pub open spec fn color_names() -> Seq<Seq<char>> {
    seq![
        "ALICEBLUE"@,
        "ANTIQUEWHITE"@,
        "AQUA"@,
        "AQUAMARINE"@,
        "AZURE"@,
        "BEIGE"@,
        "BISQUE"@,
        "BLANCHEDALMOND"@,
        "BLUE"@,
        "BLUEVIOLET"@,
        "BROWN"@,
        "BURLYWOOD"@,
        "CADETBLUE"@,
        "CHARTREUSE"@,
        "CHOCOLATE"@,
        "CORAL"@,
        "CORNFLOWERBLUE"@,
        "CORNSILK"@,
        "CRIMSON"@,
        "CYAN"@,
        "DARKBLUE"@,
        "DARKCYAN"@,
        "DARKGOLDENROD"@,
        "DARKGREEN"@,
        "DARKKHAKI"@,
        "DARKMAGENTA"@,
        "DARKOLIVEGREEN"@,
        "DARKORANGE"@,
        "DARKORCHID"@,
        "DARKRED"@,
        "DARKSALMON"@,
        "DARKSEAGREEN"@,
        "DARKSLATEBLUE"@,
        "DARKTURQUOISE"@,
        "DARKVIOLET"@,
        "DEEPPINK"@,
        "DEEPSKYBLUE"@,
        "DODGERBLUE"@,
        "FIREBRICK"@,
        "FLORALWHITE"@,
        "FORESTGREEN"@,
        "FUCHSIA"@,
        "GOLD"@,
        "GOLDENROD"@,
        "GREEN"@,
        "GREENYELLOW"@,
        "HONEYDEW"@,
        "HOTPINK"@,
        "INDIANRED"@,
        "INDIGO"@,
        "IVORY"@,
        "KHAKI"@,
        "LAVENDER"@,
        "LAVENDERBLUSH"@,
        "LAWNGREEN"@,
        "LEMONCHIFFON"@,
        "LIGHTBLUE"@,
        "LIGHTCORAL"@,
        "LIGHTCYAN"@,
        "LIGHTGOLDENRODYELLOW"@,
        "LIGHTGREEN"@,
        "LIGHTPINK"@,
        "LIGHTSALMON"@,
        "LIGHTSEAGREEN"@,
        "LIGHTSKYBLUE"@,
        "LIGHTSTEELBLUE"@,
        "LIGHTYELLOW"@,
        "LIME"@,
        "LIMEGREEN"@,
        "LINEN"@,
        "MAGENTA"@,
        "MAROON"@,
        "MEDIUMAQUAMARINE"@,
        "MEDIUMBLUE"@,
        "MEDIUMORCHID"@,
        "MEDIUMPURPLE"@,
        "MEDIUMSEAGREEN"@,
        "MEDIUMSLATEBLUE"@,
        "MEDIUMSPRINGGREEN"@,
        "MEDIUMTURQUOISE"@,
        "MEDIUMVIOLETRED"@,
        "MIDNIGHTBLUE"@,
        "MINTCREAM"@,
        "MISTYROSE"@,
        "MOCCASIN"@,
        "NAVAJOWHITE"@,
        "NAVY"@,
        "OLDLACE"@,
        "OLIVE"@,
        "OLIVEDRAB"@,
        "ORANGE"@,
        "ORANGERED"@,
        "ORCHID"@,
        "PALEGOLDENROD"@,
        "PALEGREEN"@,
        "PALETURQUOISE"@,
        "PALEVIOLETRED"@,
        "PAPAYAWHIP"@,
        "PEACHPUFF"@,
        "PERU"@,
        "PINK"@,
        "PLUM"@,
        "POWDERBLUE"@,
        "PURPLE"@,
        "REBECCAPURPLE"@,
        "RED"@,
        "ROSYBROWN"@,
        "ROYALBLUE"@,
        "SADDLEBROWN"@,
        "SALMON"@,
        "SANDYBROWN"@,
        "SEAGREEN"@,
        "SEASHELL"@,
        "SIENNA"@,
        "SKYBLUE"@,
        "SLATEBLUE"@,
        "SPRINGGREEN"@,
        "STEELBLUE"@,
        "TAN"@,
        "TEAL"@,
        "THISTLE"@,
        "TOMATO"@,
        "TURQUOISE"@,
        "VIOLET"@,
        "WHEAT"@,
        "YELLOW"@,
        "YELLOWGREEN"@
    ]
}

/// The colour `palette::named::from_str` gives for a lower-case SVG/CSS3
/// colour keyword, as red, green and blue; `None` for other names.
pub uninterp spec fn svg_color(name: Seq<char>) -> Option<(u8, u8, u8)>;

/// `palette::named::from_str`: claims the result is the named function of
/// the name, read as its red, green and blue components.
#[verifier::external_body]
fn named_color(name: &str) -> (r: Option<(u8, u8, u8)>)
    ensures
        r == svg_color(name@),
{
    palette::named::from_str(name).map(|c| (c.red, c.green, c.blue))
}

/// The colour a chat message names: the message is trimmed and upper-cased;
/// if the result is an accepted name, the colour is the SVG/CSS3 colour of
/// that name.
pub open spec fn color_of(name: Seq<char>) -> Option<Rgb> {
    let key = uppercase(trimmed(name));
    if color_names().contains(key) {
        match svg_color(ascii_lower(key)) {
            Some(c) => Some(Rgb { red: c.0, green: c.1, blue: c.2 }),
            None => None,
        }
    } else {
        None
    }
}

fn color_table() -> (v: Vec<&'static str>)
    ensures
        v@.map_values(|s: &str| s@) == color_names(),
{
    let v = vec![
        "ALICEBLUE",
        "ANTIQUEWHITE",
        "AQUA",
        "AQUAMARINE",
        "AZURE",
        "BEIGE",
        "BISQUE",
        "BLANCHEDALMOND",
        "BLUE",
        "BLUEVIOLET",
        "BROWN",
        "BURLYWOOD",
        "CADETBLUE",
        "CHARTREUSE",
        "CHOCOLATE",
        "CORAL",
        "CORNFLOWERBLUE",
        "CORNSILK",
        "CRIMSON",
        "CYAN",
        "DARKBLUE",
        "DARKCYAN",
        "DARKGOLDENROD",
        "DARKGREEN",
        "DARKKHAKI",
        "DARKMAGENTA",
        "DARKOLIVEGREEN",
        "DARKORANGE",
        "DARKORCHID",
        "DARKRED",
        "DARKSALMON",
        "DARKSEAGREEN",
        "DARKSLATEBLUE",
        "DARKTURQUOISE",
        "DARKVIOLET",
        "DEEPPINK",
        "DEEPSKYBLUE",
        "DODGERBLUE",
        "FIREBRICK",
        "FLORALWHITE",
        "FORESTGREEN",
        "FUCHSIA",
        "GOLD",
        "GOLDENROD",
        "GREEN",
        "GREENYELLOW",
        "HONEYDEW",
        "HOTPINK",
        "INDIANRED",
        "INDIGO",
        "IVORY",
        "KHAKI",
        "LAVENDER",
        "LAVENDERBLUSH",
        "LAWNGREEN",
        "LEMONCHIFFON",
        "LIGHTBLUE",
        "LIGHTCORAL",
        "LIGHTCYAN",
        "LIGHTGOLDENRODYELLOW",
        "LIGHTGREEN",
        "LIGHTPINK",
        "LIGHTSALMON",
        "LIGHTSEAGREEN",
        "LIGHTSKYBLUE",
        "LIGHTSTEELBLUE",
        "LIGHTYELLOW",
        "LIME",
        "LIMEGREEN",
        "LINEN",
        "MAGENTA",
        "MAROON",
        "MEDIUMAQUAMARINE",
        "MEDIUMBLUE",
        "MEDIUMORCHID",
        "MEDIUMPURPLE",
        "MEDIUMSEAGREEN",
        "MEDIUMSLATEBLUE",
        "MEDIUMSPRINGGREEN",
        "MEDIUMTURQUOISE",
        "MEDIUMVIOLETRED",
        "MIDNIGHTBLUE",
        "MINTCREAM",
        "MISTYROSE",
        "MOCCASIN",
        "NAVAJOWHITE",
        "NAVY",
        "OLDLACE",
        "OLIVE",
        "OLIVEDRAB",
        "ORANGE",
        "ORANGERED",
        "ORCHID",
        "PALEGOLDENROD",
        "PALEGREEN",
        "PALETURQUOISE",
        "PALEVIOLETRED",
        "PAPAYAWHIP",
        "PEACHPUFF",
        "PERU",
        "PINK",
        "PLUM",
        "POWDERBLUE",
        "PURPLE",
        "REBECCAPURPLE",
        "RED",
        "ROSYBROWN",
        "ROYALBLUE",
        "SADDLEBROWN",
        "SALMON",
        "SANDYBROWN",
        "SEAGREEN",
        "SEASHELL",
        "SIENNA",
        "SKYBLUE",
        "SLATEBLUE",
        "SPRINGGREEN",
        "STEELBLUE",
        "TAN",
        "TEAL",
        "THISTLE",
        "TOMATO",
        "TURQUOISE",
        "VIOLET",
        "WHEAT",
        "YELLOW",
        "YELLOWGREEN"
    ];
    assert(v@.map_values(|s: &str| s@) =~= color_names());
    v
}

/// Looks up the colour a chat message names. Surrounding whitespace and
/// letter case are ignored.
pub fn color_from_str(name: &str) -> (r: Option<Rgb>)
    ensures
        r == color_of(name@),
{
    let key = to_uppercase(trim_str(name));
    let table = color_table();
    let n = table.len();
    let mut i: usize = 0;
    while i < n
        invariant
            n == table@.len(),
            key@ == uppercase(trimmed(name@)),
            table@.map_values(|s: &str| s@) == color_names(),
            i <= n,
            forall|j: int| 0 <= j < i ==> color_names()[j] != key@,
        decreases n - i,
    {
        if str_eq(key.as_str(), table[i]) {
            assert(color_names()[i as int] == key@);
            assert(color_names().contains(key@));
            let lower = ascii_lowercase(key.as_str());
            let c = named_color(lower.as_str());
            return match c {
                Some(c) => Some(Rgb { red: c.0, green: c.1, blue: c.2 }),
                None => None,
            };
        }
        i += 1;
    }
    assert(!color_names().contains(key@));
    None
}


/// Whitespace around a colour name does not change the colour it names.
pub proof fn lemma_color_ignores_padding(before: Seq<char>, name: Seq<char>, after: Seq<char>)
    requires
        all_white_space(before),
        all_white_space(after),
    ensures
        color_of(before + name + after) == color_of(name),
{
    lemma_trimmed_padding(before, name, after);
}

proof fn lemma_trimmed_ascii(s: Seq<char>)
    requires
        vstd::utf8::is_ascii_chars(s),
    ensures
        vstd::utf8::is_ascii_chars(trimmed(s)),
{
    let t = trimmed(s);
    lemma_leading_ws_bound(s);
    lemma_trailing_ws_bound(s);
    if t.len() > 0 {
        lemma_leading_ws_no_overlap(s);
        assert forall|i: int| 0 <= i < t.len() implies '\0' <= #[trigger] t[i] <= '\u{7f}' by {
            assert(t[i] == s[leading_ws(s) + i]);
        }
    }
}

/// For ASCII messages, letter case does not matter: two messages that are
/// equal up to the case of their letters name the same colour.
pub proof fn lemma_color_ignores_ascii_case(a: Seq<char>, b: Seq<char>)
    requires
        vstd::utf8::is_ascii_chars(a),
        vstd::utf8::is_ascii_chars(b),
        ascii_upper(a) == ascii_upper(b),
    ensures
        color_of(a) == color_of(b),
{
    lemma_trimmed_ascii(a);
    lemma_trimmed_ascii(b);
    lemma_trimmed_ascii_upper(a);
    lemma_trimmed_ascii_upper(b);
}

/// A message whose trimmed text is ASCII names the same colour as its
/// trimmed, upper-cased form: looking up `x` and looking up
/// `x.trim().to_uppercase()` give the same answer.
pub proof fn lemma_color_of_normalised(x: Seq<char>)
    requires
        vstd::utf8::is_ascii_chars(trimmed(x)),
    ensures
        color_of(uppercase(trimmed(x))) == color_of(x),
{
    let t = trimmed(x);
    let k = ascii_upper(t);
    assert(uppercase(t) == k);
    lemma_trimmed_idempotent(x);
    lemma_trimmed_ascii_upper(t);
    assert(trimmed(k) == k);
    assert(vstd::utf8::is_ascii_chars(k)) by {
        assert forall|i: int| 0 <= i < k.len() implies '\0' <= #[trigger] k[i] <= '\u{7f}' by {
            assert(k[i] == ascii_upper_char(t[i]));
        }
    }
    assert(ascii_upper(k) =~= k);
    assert(uppercase(trimmed(k)) == k);
}

/// The SVG/CSS3 colour keywords that have a hue, in upper case: every
/// keyword but the greys, black, white, silver, gainsboro, ghost white,
/// snow and white smoke.
pub open spec fn hued_keyword(k: Seq<char>) -> bool {
    ||| k == "ALICEBLUE"@
    ||| k == "ANTIQUEWHITE"@
    ||| k == "AQUA"@
    ||| k == "AQUAMARINE"@
    ||| k == "AZURE"@
    ||| k == "BEIGE"@
    ||| k == "BISQUE"@
    ||| k == "BLANCHEDALMOND"@
    ||| k == "BLUE"@
    ||| k == "BLUEVIOLET"@
    ||| k == "BROWN"@
    ||| k == "BURLYWOOD"@
    ||| k == "CADETBLUE"@
    ||| k == "CHARTREUSE"@
    ||| k == "CHOCOLATE"@
    ||| k == "CORAL"@
    ||| k == "CORNFLOWERBLUE"@
    ||| k == "CORNSILK"@
    ||| k == "CRIMSON"@
    ||| k == "CYAN"@
    ||| k == "DARKBLUE"@
    ||| k == "DARKCYAN"@
    ||| k == "DARKGOLDENROD"@
    ||| k == "DARKGREEN"@
    ||| k == "DARKKHAKI"@
    ||| k == "DARKMAGENTA"@
    ||| k == "DARKOLIVEGREEN"@
    ||| k == "DARKORANGE"@
    ||| k == "DARKORCHID"@
    ||| k == "DARKRED"@
    ||| k == "DARKSALMON"@
    ||| k == "DARKSEAGREEN"@
    ||| k == "DARKSLATEBLUE"@
    ||| k == "DARKTURQUOISE"@
    ||| k == "DARKVIOLET"@
    ||| k == "DEEPPINK"@
    ||| k == "DEEPSKYBLUE"@
    ||| k == "DODGERBLUE"@
    ||| k == "FIREBRICK"@
    ||| k == "FLORALWHITE"@
    ||| k == "FORESTGREEN"@
    ||| k == "FUCHSIA"@
    ||| k == "GOLD"@
    ||| k == "GOLDENROD"@
    ||| k == "GREEN"@
    ||| k == "GREENYELLOW"@
    ||| k == "HONEYDEW"@
    ||| k == "HOTPINK"@
    ||| k == "INDIANRED"@
    ||| k == "INDIGO"@
    ||| k == "IVORY"@
    ||| k == "KHAKI"@
    ||| k == "LAVENDER"@
    ||| k == "LAVENDERBLUSH"@
    ||| k == "LAWNGREEN"@
    ||| k == "LEMONCHIFFON"@
    ||| k == "LIGHTBLUE"@
    ||| k == "LIGHTCORAL"@
    ||| k == "LIGHTCYAN"@
    ||| k == "LIGHTGOLDENRODYELLOW"@
    ||| k == "LIGHTGREEN"@
    ||| k == "LIGHTPINK"@
    ||| k == "LIGHTSALMON"@
    ||| k == "LIGHTSEAGREEN"@
    ||| k == "LIGHTSKYBLUE"@
    ||| k == "LIGHTSTEELBLUE"@
    ||| k == "LIGHTYELLOW"@
    ||| k == "LIME"@
    ||| k == "LIMEGREEN"@
    ||| k == "LINEN"@
    ||| k == "MAGENTA"@
    ||| k == "MAROON"@
    ||| k == "MEDIUMAQUAMARINE"@
    ||| k == "MEDIUMBLUE"@
    ||| k == "MEDIUMORCHID"@
    ||| k == "MEDIUMPURPLE"@
    ||| k == "MEDIUMSEAGREEN"@
    ||| k == "MEDIUMSLATEBLUE"@
    ||| k == "MEDIUMSPRINGGREEN"@
    ||| k == "MEDIUMTURQUOISE"@
    ||| k == "MEDIUMVIOLETRED"@
    ||| k == "MIDNIGHTBLUE"@
    ||| k == "MINTCREAM"@
    ||| k == "MISTYROSE"@
    ||| k == "MOCCASIN"@
    ||| k == "NAVAJOWHITE"@
    ||| k == "NAVY"@
    ||| k == "OLDLACE"@
    ||| k == "OLIVE"@
    ||| k == "OLIVEDRAB"@
    ||| k == "ORANGE"@
    ||| k == "ORANGERED"@
    ||| k == "ORCHID"@
    ||| k == "PALEGOLDENROD"@
    ||| k == "PALEGREEN"@
    ||| k == "PALETURQUOISE"@
    ||| k == "PALEVIOLETRED"@
    ||| k == "PAPAYAWHIP"@
    ||| k == "PEACHPUFF"@
    ||| k == "PERU"@
    ||| k == "PINK"@
    ||| k == "PLUM"@
    ||| k == "POWDERBLUE"@
    ||| k == "PURPLE"@
    ||| k == "REBECCAPURPLE"@
    ||| k == "RED"@
    ||| k == "ROSYBROWN"@
    ||| k == "ROYALBLUE"@
    ||| k == "SADDLEBROWN"@
    ||| k == "SALMON"@
    ||| k == "SANDYBROWN"@
    ||| k == "SEAGREEN"@
    ||| k == "SEASHELL"@
    ||| k == "SIENNA"@
    ||| k == "SKYBLUE"@
    ||| k == "SLATEBLUE"@
    ||| k == "SPRINGGREEN"@
    ||| k == "STEELBLUE"@
    ||| k == "TAN"@
    ||| k == "TEAL"@
    ||| k == "THISTLE"@
    ||| k == "TOMATO"@
    ||| k == "TURQUOISE"@
    ||| k == "VIOLET"@
    ||| k == "WHEAT"@
    ||| k == "YELLOW"@
    ||| k == "YELLOWGREEN"@
}

/// Every hued keyword is an accepted name, and it neither starts nor ends
/// with whitespace.
proof fn lemma_hued_keyword_accepted(k: Seq<char>)
    requires
        hued_keyword(k),
    ensures
        color_names().contains(k),
        k.len() > 0,
        !is_white_space(k[0]),
        !is_white_space(k.last()),
{
    if k == "ALICEBLUE"@ {
        reveal_strlit("ALICEBLUE");
        assert(color_names()[0] == k);
    } else if k == "ANTIQUEWHITE"@ {
        reveal_strlit("ANTIQUEWHITE");
        assert(color_names()[1] == k);
    } else if k == "AQUA"@ {
        reveal_strlit("AQUA");
        assert(color_names()[2] == k);
    } else if k == "AQUAMARINE"@ {
        reveal_strlit("AQUAMARINE");
        assert(color_names()[3] == k);
    } else if k == "AZURE"@ {
        reveal_strlit("AZURE");
        assert(color_names()[4] == k);
    } else if k == "BEIGE"@ {
        reveal_strlit("BEIGE");
        assert(color_names()[5] == k);
    } else if k == "BISQUE"@ {
        reveal_strlit("BISQUE");
        assert(color_names()[6] == k);
    } else if k == "BLANCHEDALMOND"@ {
        reveal_strlit("BLANCHEDALMOND");
        assert(color_names()[7] == k);
    } else if k == "BLUE"@ {
        reveal_strlit("BLUE");
        assert(color_names()[8] == k);
    } else if k == "BLUEVIOLET"@ {
        reveal_strlit("BLUEVIOLET");
        assert(color_names()[9] == k);
    } else if k == "BROWN"@ {
        reveal_strlit("BROWN");
        assert(color_names()[10] == k);
    } else if k == "BURLYWOOD"@ {
        reveal_strlit("BURLYWOOD");
        assert(color_names()[11] == k);
    } else if k == "CADETBLUE"@ {
        reveal_strlit("CADETBLUE");
        assert(color_names()[12] == k);
    } else if k == "CHARTREUSE"@ {
        reveal_strlit("CHARTREUSE");
        assert(color_names()[13] == k);
    } else if k == "CHOCOLATE"@ {
        reveal_strlit("CHOCOLATE");
        assert(color_names()[14] == k);
    } else if k == "CORAL"@ {
        reveal_strlit("CORAL");
        assert(color_names()[15] == k);
    } else if k == "CORNFLOWERBLUE"@ {
        reveal_strlit("CORNFLOWERBLUE");
        assert(color_names()[16] == k);
    } else if k == "CORNSILK"@ {
        reveal_strlit("CORNSILK");
        assert(color_names()[17] == k);
    } else if k == "CRIMSON"@ {
        reveal_strlit("CRIMSON");
        assert(color_names()[18] == k);
    } else if k == "CYAN"@ {
        reveal_strlit("CYAN");
        assert(color_names()[19] == k);
    } else if k == "DARKBLUE"@ {
        reveal_strlit("DARKBLUE");
        assert(color_names()[20] == k);
    } else if k == "DARKCYAN"@ {
        reveal_strlit("DARKCYAN");
        assert(color_names()[21] == k);
    } else if k == "DARKGOLDENROD"@ {
        reveal_strlit("DARKGOLDENROD");
        assert(color_names()[22] == k);
    } else if k == "DARKGREEN"@ {
        reveal_strlit("DARKGREEN");
        assert(color_names()[23] == k);
    } else if k == "DARKKHAKI"@ {
        reveal_strlit("DARKKHAKI");
        assert(color_names()[24] == k);
    } else if k == "DARKMAGENTA"@ {
        reveal_strlit("DARKMAGENTA");
        assert(color_names()[25] == k);
    } else if k == "DARKOLIVEGREEN"@ {
        reveal_strlit("DARKOLIVEGREEN");
        assert(color_names()[26] == k);
    } else if k == "DARKORANGE"@ {
        reveal_strlit("DARKORANGE");
        assert(color_names()[27] == k);
    } else if k == "DARKORCHID"@ {
        reveal_strlit("DARKORCHID");
        assert(color_names()[28] == k);
    } else if k == "DARKRED"@ {
        reveal_strlit("DARKRED");
        assert(color_names()[29] == k);
    } else if k == "DARKSALMON"@ {
        reveal_strlit("DARKSALMON");
        assert(color_names()[30] == k);
    } else if k == "DARKSEAGREEN"@ {
        reveal_strlit("DARKSEAGREEN");
        assert(color_names()[31] == k);
    } else if k == "DARKSLATEBLUE"@ {
        reveal_strlit("DARKSLATEBLUE");
        assert(color_names()[32] == k);
    } else if k == "DARKTURQUOISE"@ {
        reveal_strlit("DARKTURQUOISE");
        assert(color_names()[33] == k);
    } else if k == "DARKVIOLET"@ {
        reveal_strlit("DARKVIOLET");
        assert(color_names()[34] == k);
    } else if k == "DEEPPINK"@ {
        reveal_strlit("DEEPPINK");
        assert(color_names()[35] == k);
    } else if k == "DEEPSKYBLUE"@ {
        reveal_strlit("DEEPSKYBLUE");
        assert(color_names()[36] == k);
    } else if k == "DODGERBLUE"@ {
        reveal_strlit("DODGERBLUE");
        assert(color_names()[37] == k);
    } else if k == "FIREBRICK"@ {
        reveal_strlit("FIREBRICK");
        assert(color_names()[38] == k);
    } else if k == "FLORALWHITE"@ {
        reveal_strlit("FLORALWHITE");
        assert(color_names()[39] == k);
    } else if k == "FORESTGREEN"@ {
        reveal_strlit("FORESTGREEN");
        assert(color_names()[40] == k);
    } else if k == "FUCHSIA"@ {
        reveal_strlit("FUCHSIA");
        assert(color_names()[41] == k);
    } else if k == "GOLD"@ {
        reveal_strlit("GOLD");
        assert(color_names()[42] == k);
    } else if k == "GOLDENROD"@ {
        reveal_strlit("GOLDENROD");
        assert(color_names()[43] == k);
    } else if k == "GREEN"@ {
        reveal_strlit("GREEN");
        assert(color_names()[44] == k);
    } else if k == "GREENYELLOW"@ {
        reveal_strlit("GREENYELLOW");
        assert(color_names()[45] == k);
    } else if k == "HONEYDEW"@ {
        reveal_strlit("HONEYDEW");
        assert(color_names()[46] == k);
    } else if k == "HOTPINK"@ {
        reveal_strlit("HOTPINK");
        assert(color_names()[47] == k);
    } else if k == "INDIANRED"@ {
        reveal_strlit("INDIANRED");
        assert(color_names()[48] == k);
    } else if k == "INDIGO"@ {
        reveal_strlit("INDIGO");
        assert(color_names()[49] == k);
    } else if k == "IVORY"@ {
        reveal_strlit("IVORY");
        assert(color_names()[50] == k);
    } else if k == "KHAKI"@ {
        reveal_strlit("KHAKI");
        assert(color_names()[51] == k);
    } else if k == "LAVENDER"@ {
        reveal_strlit("LAVENDER");
        assert(color_names()[52] == k);
    } else if k == "LAVENDERBLUSH"@ {
        reveal_strlit("LAVENDERBLUSH");
        assert(color_names()[53] == k);
    } else if k == "LAWNGREEN"@ {
        reveal_strlit("LAWNGREEN");
        assert(color_names()[54] == k);
    } else if k == "LEMONCHIFFON"@ {
        reveal_strlit("LEMONCHIFFON");
        assert(color_names()[55] == k);
    } else if k == "LIGHTBLUE"@ {
        reveal_strlit("LIGHTBLUE");
        assert(color_names()[56] == k);
    } else if k == "LIGHTCORAL"@ {
        reveal_strlit("LIGHTCORAL");
        assert(color_names()[57] == k);
    } else if k == "LIGHTCYAN"@ {
        reveal_strlit("LIGHTCYAN");
        assert(color_names()[58] == k);
    } else if k == "LIGHTGOLDENRODYELLOW"@ {
        reveal_strlit("LIGHTGOLDENRODYELLOW");
        assert(color_names()[59] == k);
    } else if k == "LIGHTGREEN"@ {
        reveal_strlit("LIGHTGREEN");
        assert(color_names()[60] == k);
    } else if k == "LIGHTPINK"@ {
        reveal_strlit("LIGHTPINK");
        assert(color_names()[61] == k);
    } else if k == "LIGHTSALMON"@ {
        reveal_strlit("LIGHTSALMON");
        assert(color_names()[62] == k);
    } else if k == "LIGHTSEAGREEN"@ {
        reveal_strlit("LIGHTSEAGREEN");
        assert(color_names()[63] == k);
    } else if k == "LIGHTSKYBLUE"@ {
        reveal_strlit("LIGHTSKYBLUE");
        assert(color_names()[64] == k);
    } else if k == "LIGHTSTEELBLUE"@ {
        reveal_strlit("LIGHTSTEELBLUE");
        assert(color_names()[65] == k);
    } else if k == "LIGHTYELLOW"@ {
        reveal_strlit("LIGHTYELLOW");
        assert(color_names()[66] == k);
    } else if k == "LIME"@ {
        reveal_strlit("LIME");
        assert(color_names()[67] == k);
    } else if k == "LIMEGREEN"@ {
        reveal_strlit("LIMEGREEN");
        assert(color_names()[68] == k);
    } else if k == "LINEN"@ {
        reveal_strlit("LINEN");
        assert(color_names()[69] == k);
    } else if k == "MAGENTA"@ {
        reveal_strlit("MAGENTA");
        assert(color_names()[70] == k);
    } else if k == "MAROON"@ {
        reveal_strlit("MAROON");
        assert(color_names()[71] == k);
    } else if k == "MEDIUMAQUAMARINE"@ {
        reveal_strlit("MEDIUMAQUAMARINE");
        assert(color_names()[72] == k);
    } else if k == "MEDIUMBLUE"@ {
        reveal_strlit("MEDIUMBLUE");
        assert(color_names()[73] == k);
    } else if k == "MEDIUMORCHID"@ {
        reveal_strlit("MEDIUMORCHID");
        assert(color_names()[74] == k);
    } else if k == "MEDIUMPURPLE"@ {
        reveal_strlit("MEDIUMPURPLE");
        assert(color_names()[75] == k);
    } else if k == "MEDIUMSEAGREEN"@ {
        reveal_strlit("MEDIUMSEAGREEN");
        assert(color_names()[76] == k);
    } else if k == "MEDIUMSLATEBLUE"@ {
        reveal_strlit("MEDIUMSLATEBLUE");
        assert(color_names()[77] == k);
    } else if k == "MEDIUMSPRINGGREEN"@ {
        reveal_strlit("MEDIUMSPRINGGREEN");
        assert(color_names()[78] == k);
    } else if k == "MEDIUMTURQUOISE"@ {
        reveal_strlit("MEDIUMTURQUOISE");
        assert(color_names()[79] == k);
    } else if k == "MEDIUMVIOLETRED"@ {
        reveal_strlit("MEDIUMVIOLETRED");
        assert(color_names()[80] == k);
    } else if k == "MIDNIGHTBLUE"@ {
        reveal_strlit("MIDNIGHTBLUE");
        assert(color_names()[81] == k);
    } else if k == "MINTCREAM"@ {
        reveal_strlit("MINTCREAM");
        assert(color_names()[82] == k);
    } else if k == "MISTYROSE"@ {
        reveal_strlit("MISTYROSE");
        assert(color_names()[83] == k);
    } else if k == "MOCCASIN"@ {
        reveal_strlit("MOCCASIN");
        assert(color_names()[84] == k);
    } else if k == "NAVAJOWHITE"@ {
        reveal_strlit("NAVAJOWHITE");
        assert(color_names()[85] == k);
    } else if k == "NAVY"@ {
        reveal_strlit("NAVY");
        assert(color_names()[86] == k);
    } else if k == "OLDLACE"@ {
        reveal_strlit("OLDLACE");
        assert(color_names()[87] == k);
    } else if k == "OLIVE"@ {
        reveal_strlit("OLIVE");
        assert(color_names()[88] == k);
    } else if k == "OLIVEDRAB"@ {
        reveal_strlit("OLIVEDRAB");
        assert(color_names()[89] == k);
    } else if k == "ORANGE"@ {
        reveal_strlit("ORANGE");
        assert(color_names()[90] == k);
    } else if k == "ORANGERED"@ {
        reveal_strlit("ORANGERED");
        assert(color_names()[91] == k);
    } else if k == "ORCHID"@ {
        reveal_strlit("ORCHID");
        assert(color_names()[92] == k);
    } else if k == "PALEGOLDENROD"@ {
        reveal_strlit("PALEGOLDENROD");
        assert(color_names()[93] == k);
    } else if k == "PALEGREEN"@ {
        reveal_strlit("PALEGREEN");
        assert(color_names()[94] == k);
    } else if k == "PALETURQUOISE"@ {
        reveal_strlit("PALETURQUOISE");
        assert(color_names()[95] == k);
    } else if k == "PALEVIOLETRED"@ {
        reveal_strlit("PALEVIOLETRED");
        assert(color_names()[96] == k);
    } else if k == "PAPAYAWHIP"@ {
        reveal_strlit("PAPAYAWHIP");
        assert(color_names()[97] == k);
    } else if k == "PEACHPUFF"@ {
        reveal_strlit("PEACHPUFF");
        assert(color_names()[98] == k);
    } else if k == "PERU"@ {
        reveal_strlit("PERU");
        assert(color_names()[99] == k);
    } else if k == "PINK"@ {
        reveal_strlit("PINK");
        assert(color_names()[100] == k);
    } else if k == "PLUM"@ {
        reveal_strlit("PLUM");
        assert(color_names()[101] == k);
    } else if k == "POWDERBLUE"@ {
        reveal_strlit("POWDERBLUE");
        assert(color_names()[102] == k);
    } else if k == "PURPLE"@ {
        reveal_strlit("PURPLE");
        assert(color_names()[103] == k);
    } else if k == "REBECCAPURPLE"@ {
        reveal_strlit("REBECCAPURPLE");
        assert(color_names()[104] == k);
    } else if k == "RED"@ {
        reveal_strlit("RED");
        assert(color_names()[105] == k);
    } else if k == "ROSYBROWN"@ {
        reveal_strlit("ROSYBROWN");
        assert(color_names()[106] == k);
    } else if k == "ROYALBLUE"@ {
        reveal_strlit("ROYALBLUE");
        assert(color_names()[107] == k);
    } else if k == "SADDLEBROWN"@ {
        reveal_strlit("SADDLEBROWN");
        assert(color_names()[108] == k);
    } else if k == "SALMON"@ {
        reveal_strlit("SALMON");
        assert(color_names()[109] == k);
    } else if k == "SANDYBROWN"@ {
        reveal_strlit("SANDYBROWN");
        assert(color_names()[110] == k);
    } else if k == "SEAGREEN"@ {
        reveal_strlit("SEAGREEN");
        assert(color_names()[111] == k);
    } else if k == "SEASHELL"@ {
        reveal_strlit("SEASHELL");
        assert(color_names()[112] == k);
    } else if k == "SIENNA"@ {
        reveal_strlit("SIENNA");
        assert(color_names()[113] == k);
    } else if k == "SKYBLUE"@ {
        reveal_strlit("SKYBLUE");
        assert(color_names()[114] == k);
    } else if k == "SLATEBLUE"@ {
        reveal_strlit("SLATEBLUE");
        assert(color_names()[115] == k);
    } else if k == "SPRINGGREEN"@ {
        reveal_strlit("SPRINGGREEN");
        assert(color_names()[116] == k);
    } else if k == "STEELBLUE"@ {
        reveal_strlit("STEELBLUE");
        assert(color_names()[117] == k);
    } else if k == "TAN"@ {
        reveal_strlit("TAN");
        assert(color_names()[118] == k);
    } else if k == "TEAL"@ {
        reveal_strlit("TEAL");
        assert(color_names()[119] == k);
    } else if k == "THISTLE"@ {
        reveal_strlit("THISTLE");
        assert(color_names()[120] == k);
    } else if k == "TOMATO"@ {
        reveal_strlit("TOMATO");
        assert(color_names()[121] == k);
    } else if k == "TURQUOISE"@ {
        reveal_strlit("TURQUOISE");
        assert(color_names()[122] == k);
    } else if k == "VIOLET"@ {
        reveal_strlit("VIOLET");
        assert(color_names()[123] == k);
    } else if k == "WHEAT"@ {
        reveal_strlit("WHEAT");
        assert(color_names()[124] == k);
    } else if k == "YELLOW"@ {
        reveal_strlit("YELLOW");
        assert(color_names()[125] == k);
    } else if k == "YELLOWGREEN"@ {
        reveal_strlit("YELLOWGREEN");
        assert(color_names()[126] == k);
    }
}

/// A chat message that is a hued SVG/CSS3 colour keyword, in any mix of
/// letter case and with any whitespace around it, names that keyword's
/// sRGB colour.
pub proof fn lemma_hued_keyword_colour(before: Seq<char>, s: Seq<char>, after: Seq<char>)
    requires
        all_white_space(before),
        all_white_space(after),
        vstd::utf8::is_ascii_chars(s),
        hued_keyword(ascii_upper(s)),
    ensures
        color_of(before + s + after) == match svg_color(ascii_lower(s)) {
            Some(c) => Some(Rgb { red: c.0, green: c.1, blue: c.2 }),
            None => None,
        },
{
    let k = ascii_upper(s);
    lemma_hued_keyword_accepted(k);
    lemma_color_ignores_padding(before, s, after);
    lemma_ascii_upper_ws(s);
    assert(leading_ws(k) == 0);
    assert(trailing_ws(k) == 0);
    assert(trimmed(s) =~= s);
    assert(uppercase(s) == k);
    assert(ascii_lower(k) =~= ascii_lower(s));
}

} // verus!
