use vstd::prelude::*;
use vstd::string::*;
use vstd::utf8::encode_utf8;
use crate::number::{decimal, decimal_string};

verus! {

/// Opening of the `svg` element, up to the width in pixels.
pub const SVG_OPEN: &'static str = r#"<svg baseProfile="full" height="41px" version="1.1" width=""#;

/// Rest of the `svg` element's opening tag, after the width.
pub const SVG_ATTRS: &'static str = r#"px" xmlns="http://www.w3.org/2000/svg" xmlns:ev="http://www.w3.org/2001/xml-events" xmlns:xlink="http://www.w3.org/1999/xlink">"#;

/// Background rectangle, up to its fill colour.
pub const RECT_OPEN: &'static str = r#"<rect fill=""#;

/// Rest of the background rectangle, which covers the whole image.
pub const RECT_CLOSE: &'static str = r#"" height="100%" width="100%" x="0" y="0" />"#;

/// Opening of the `text` element, up to its `textLength`.
pub const TEXT_OPEN: &'static str = r##"<text fill="#F2F2F2" font-family="Inconsolata Nerd Font, Inconsolata, monospace" font-size="140" textLength=""##;

/// Rest of the `text` element's opening tag, after its `textLength`.
pub const TEXT_ATTRS: &'static str = r#"" transform="scale(.1)" x="160" y="240">"#;

/// Closing of the `text` and `svg` elements.
pub const DOC_CLOSE: &'static str = "</text></svg>";

/// Background colour of scields.
pub const SCIELD_FILL: &'static str = "#282828";

/// Width in pixels of the badge for `text`: seven pixels per byte of its
/// UTF-8 form and a margin of sixteen on each side.
pub open spec fn vector_width(text: Seq<char>) -> nat {
    encode_utf8(text).len() * 7 + 32
}

/// The `textLength` of the text element, in the tenths of a pixel that the
/// `scale(.1)` transform works in: the width less both margins.
pub open spec fn text_length(text: Seq<char>) -> nat {
    (vector_width(text) * 10 - 320) as nat
}

/// The SVG document of a badge: a rectangle of colour `fill` over the whole
/// image, 41 pixels high, and `text` stretched over its width less the margins.
pub open spec fn vector_doc(text: Seq<char>, fill: Seq<char>) -> Seq<char> {
    SVG_OPEN@ + decimal(vector_width(text)) + SVG_ATTRS@ + RECT_OPEN@ + fill + RECT_CLOSE@
        + TEXT_OPEN@ + decimal(text_length(text)) + TEXT_ATTRS@ + text + DOC_CLOSE@
}

/// Lays `text` out as an SVG badge over a background of colour `fill`.
pub fn compose_vector(text: &str, fill: &str) -> (r: String)
    ensures
        r@ == vector_doc(text@, fill@),
{
    let n = text.as_bytes().len() as u128;
    let width: u128 = n * 7 + 32;
    let length: u128 = width * 10 - 320;
    assert(width == vector_width(text@));
    assert(length == text_length(text@));
    let mut svg = String::from_str(SVG_OPEN);
    svg.append(decimal_string(width).as_str());
    svg.append(SVG_ATTRS);
    svg.append(RECT_OPEN);
    svg.append(fill);
    svg.append(RECT_CLOSE);
    svg.append(TEXT_OPEN);
    svg.append(decimal_string(length).as_str());
    svg.append(TEXT_ATTRS);
    svg.append(text);
    svg.append(DOC_CLOSE);
    assert(svg@ =~= vector_doc(text@, fill@));
    svg
}

/// Lays `text` out as an SVG badge in the scield colours.
pub fn to_vector(text: &str) -> (r: String)
    ensures
        r@ == vector_doc(text@, SCIELD_FILL@),
{
    compose_vector(text, SCIELD_FILL)
}

/// The SVG document depends on the text and the colour alone: the same text
/// gives the same document, byte for byte, on every call.
pub proof fn lemma_vector_deterministic(a: Seq<char>, b: Seq<char>, fill: Seq<char>)
    requires
        a == b,
    ensures
        vector_doc(a, fill) == vector_doc(b, fill),
        vector_width(a) == encode_utf8(a).len() * 7 + 32,
{
}

} // verus!
