//! Detection of the game canvas size in the `index.html` of a Unity build.

use vstd::prelude::*;
use crate::text::{decimal_text, lemma_decimal_text_reads_back, parse_u32, u32_from_text};

verus! {

/// Width and height of the game canvas, in pixels.
#[derive(Clone, Copy, Debug, PartialEq, Eq, Structural)]
pub struct CanvasSize {
    pub width: u32,
    pub height: u32,
}

/// Width used where the page does not give a readable one.
pub const DEFAULT_WIDTH: u32 = 1600;

/// Height used where the page does not give a readable one.
pub const DEFAULT_HEIGHT: u32 = 900;

/// The pattern of the Unity canvas tag: the first `<canvas ...>` tag with
/// `id="unity-canvas"` followed by `width=` and `height=` digits; the two
/// groups capture the digits.
pub const CANVAS_TAG_PATTERN: &'static str = r#"<canvas[^>]*id="unity-canvas"[^>]*width=(\d+)[^>]*height=(\d+)"#;

#[verifier::external_type_specification]
#[verifier::external_body]
pub struct ExRegexError(regex::Error);

/// Whether `regex::Regex::new` accepts `pattern`.
pub uninterp spec fn regex_compiles(pattern: Seq<char>) -> bool;

/// What `regex::Regex::captures` finds in `text` for the regex compiled from
/// `pattern`: `None` without a match, else the capture groups in order of
/// their opening parenthesis, group 0 being the whole match, each the text
/// it matched or `None` where the group took no part in the match.
pub uninterp spec fn regex_captures(pattern: Seq<char>, text: Seq<char>) -> Option<
    Seq<Option<Seq<char>>>,
>;

/// Compiles `pattern` with `regex::Regex::new` and runs `Regex::captures`
/// on `text`. Claimed: the compile fails exactly where `regex_compiles` says
/// so; otherwise the groups handed back are those that `regex_captures`
/// names, and a match always has its group 0.
#[verifier::external_body]
fn regex_first_captures(pattern: &str, text: &str) -> (r: Result<
    Option<Vec<Option<String>>>,
    regex::Error,
>)
    ensures
        r is Ok <==> regex_compiles(pattern@),
        r matches Ok(c) ==> c.deep_view() == regex_captures(pattern@, text@),
        r matches Ok(Some(groups)) ==> groups@.len() >= 1 && groups@[0] is Some,
{
    let re = regex::Regex::new(pattern)?;
    let caps = match re.captures(text) {
        Some(caps) => caps,
        None => return Ok(None),
    };
    let mut groups = Vec::new();
    for g in caps.iter() {
        groups.push(g.map(|m| m.as_str().to_string()));
    }
    Ok(Some(groups))
}

/// The capture group `i`, if there is one and it took part in the match.
pub open spec fn group(groups: Seq<Option<Seq<char>>>, i: int) -> Option<Seq<char>> {
    if 0 <= i < groups.len() {
        groups[i]
    } else {
        None
    }
}

/// A dimension read from an optional captured text: the number it denotes
/// as a `u32`, or `default` where there is none or it does not read as one.
pub open spec fn dimension_from(text: Option<Seq<char>>, default: u32) -> u32 {
    match text {
        Some(t) => match u32_from_text(t) {
            Some(v) => v,
            None => default,
        },
        None => default,
    }
}

/// The canvas size that a match of the canvas pattern gives: group 1 is the
/// width and group 2 the height, each falling back to its default.
pub open spec fn canvas_size_from(captures: Option<Seq<Option<Seq<char>>>>) -> Option<CanvasSize> {
    match captures {
        Some(groups) => Some(
            CanvasSize {
                width: dimension_from(group(groups, 1), DEFAULT_WIDTH),
                height: dimension_from(group(groups, 2), DEFAULT_HEIGHT),
            },
        ),
        None => None,
    }
}

fn dimension_of(groups: &Vec<Option<String>>, i: usize, default: u32) -> (d: u32)
    ensures
        d == dimension_from(group(groups.deep_view(), i as int), default),
{
    if i < groups.len() {
        match &groups[i] {
            Some(t) => match parse_u32(t.as_str()) {
                Some(v) => v,
                None => default,
            },
            None => default,
        }
    } else {
        default
    }
}

/// The canvas size given by the capture groups of a match of
/// `CANVAS_TAG_PATTERN`, or `None` where the pattern did not match.
pub fn canvas_size_from_captures(captures: Option<Vec<Option<String>>>) -> (r: Option<CanvasSize>)
    ensures
        r == canvas_size_from(captures.deep_view()),
{
    match captures {
        Some(groups) => Some(
            CanvasSize {
                width: dimension_of(&groups, 1, DEFAULT_WIDTH),
                height: dimension_of(&groups, 2, DEFAULT_HEIGHT),
            },
        ),
        None => None,
    }
}

/// The canvas size declared in the text of a build's `index.html`, or
/// `None` where no Unity canvas tag with a width and a height is found.
pub fn canvas_size_in_page(content: &str) -> (r: Option<CanvasSize>)
    ensures
        regex_compiles(CANVAS_TAG_PATTERN@) ==> r == canvas_size_from(
            regex_captures(CANVAS_TAG_PATTERN@, content@),
        ),
        !regex_compiles(CANVAS_TAG_PATTERN@) ==> r is None,
{
    match regex_first_captures(CANVAS_TAG_PATTERN, content) {
        Ok(captures) => canvas_size_from_captures(captures),
        Err(_) => None,
    }
}

/// The size of the page's game frame: the detected one, else the default.
pub fn page_canvas_size(detected: Option<CanvasSize>) -> (s: CanvasSize)
    ensures
        s == match detected {
            Some(d) => d,
            None => CanvasSize { width: DEFAULT_WIDTH, height: DEFAULT_HEIGHT },
        },
{
    match detected {
        Some(d) => d,
        None => CanvasSize { width: DEFAULT_WIDTH, height: DEFAULT_HEIGHT },
    }
}

/// A captured dimension that reads as a number is taken as it is, whatever
/// its size; the default stands only for a missing or unreadable text.
pub proof fn lemma_dimension_is_the_number_read(text: Seq<char>, default: u32)
    ensures
        u32_from_text(text) matches Some(v) ==> dimension_from(Some(text), default) == v,
        u32_from_text(text) is None ==> dimension_from(Some(text), default) == default,
        dimension_from(None, default) == default,
{
}

/// A canvas tag whose width and height are written as decimal numbers gives
/// exactly that size, for every width and height.
pub proof fn lemma_canvas_size_of_written_numbers(whole: Option<Seq<char>>, width: u32, height: u32)
    ensures
        canvas_size_from(Some(seq![whole, Some(decimal_text(width as nat)), Some(decimal_text(height as nat))]))
            == Some(CanvasSize { width, height }),
{
    lemma_decimal_text_reads_back(width);
    lemma_decimal_text_reads_back(height);
    let groups = seq![whole, Some(decimal_text(width as nat)), Some(decimal_text(height as nat))];
    assert(group(groups, 1) == Some(decimal_text(width as nat)));
    assert(group(groups, 2) == Some(decimal_text(height as nat)));
}

} // verus!
