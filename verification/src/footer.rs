//! The footer of a page: a paragraph, wrapped into lines, each line centred
//! between the margins.

use vstd::prelude::*;
use vstd::string::*;
use crate::geometry::{is_length, MAX_COUNT};

verus! {

/// The number of columns that the footer's paragraph is wrapped at.
pub const FOOTER_COLUMNS: usize = 100;

/// The height of the footer's first line above the bottom of the page.
pub const FOOTER_TOP: i64 = 9_000;

/// The distance between two lines of the footer.
pub const FOOTER_LINE_GAP: i64 = 3_000;

/// The lines that textwrap's `wrap` breaks `text` into at `width` columns,
/// with its default options.
pub uninterp spec fn wrapped_lines(text: Seq<char>, width: int) -> Seq<Seq<char>>;

/// The texts of `lines`, in order.
pub open spec fn line_texts(lines: Seq<String>) -> Seq<Seq<char>> {
    lines.map_values(|l: String| l@)
}

/// Calls textwrap's `wrap` with a plain width and owns each line it returns.
///
/// Trusted: the lines are a function of the text and the width alone.
#[verifier::external_body]
fn wrap_text(text: &str, width: usize) -> (lines: Vec<String>)
    ensures
        line_texts(lines@) == wrapped_lines(text@, width as int),
{
    textwrap::wrap(text, width).into_iter().map(|l| l.into_owned()).collect()
}

/// One line of the footer.
#[derive(Debug)]
pub struct FooterLine {
    /// The text.
    pub text: String,
    /// Where it starts on the left.
    pub x: i64,
    /// Its height on the page.
    pub y: i64,
}

/// A line of the footer as the contracts see it.
pub ghost struct FooterLineView {
    pub text: Seq<char>,
    pub x: int,
    pub y: int,
}

impl View for FooterLine {
    type V = FooterLineView;

    open spec fn view(&self) -> FooterLineView {
        FooterLineView { text: self.text@, x: self.x as int, y: self.y as int }
    }
}

/// The views of `lines`, in order.
pub open spec fn footer_views(lines: Seq<FooterLine>) -> Seq<FooterLineView> {
    lines.map_values(|l: FooterLine| l@)
}

/// Half of `d`, rounded towards zero.
pub open spec fn half(d: int) -> int {
    if d >= 0 {
        d / 2
    } else {
        -((-d) / 2)
    }
}

/// Where a line of `chars` characters starts so that it is centred in
/// `usable_width`, a character counting as one millimetre.
pub open spec fn centred_x(usable_width: int, chars: int) -> int {
    half(usable_width - chars * 1000)
}

/// Line `i` of a footer of the texts `texts`.
pub open spec fn footer_line_at(texts: Seq<Seq<char>>, usable_width: int, i: int) -> FooterLineView {
    FooterLineView {
        text: texts[i],
        x: centred_x(usable_width, texts[i].len() as int),
        y: FOOTER_TOP - i * FOOTER_LINE_GAP,
    }
}

/// The footer of the texts `texts`: each line centred, the first at
/// `FOOTER_TOP`, every next one `FOOTER_LINE_GAP` lower.
pub open spec fn footer_of(texts: Seq<Seq<char>>, usable_width: int) -> Seq<FooterLineView> {
    Seq::new(texts.len(), |i: int| footer_line_at(texts, usable_width, i))
}

/// Whether the footer arithmetic accepts the texts: at most `MAX_COUNT`
/// lines of at most `MAX_COUNT` characters.
pub open spec fn texts_fit(texts: Seq<Seq<char>>) -> bool {
    &&& texts.len() <= MAX_COUNT
    &&& forall|i: int| 0 <= i < texts.len() ==> (#[trigger] texts[i]).len() <= MAX_COUNT
}

/// Half of `d`, rounded towards zero.
fn half_of(d: i64) -> (h: i64)
    requires
        d > i64::MIN,
    ensures
        h == half(d as int),
{
    if d >= 0 {
        d / 2
    } else {
        -((-d) / 2)
    }
}

/// Places the lines of a footer: each line centred in `usable_width`, the
/// first at `FOOTER_TOP`, every next one `FOOTER_LINE_GAP` lower.
pub fn place_footer(lines: &Vec<String>, usable_width: i64) -> (footer: Vec<FooterLine>)
    requires
        is_length(usable_width as int),
        texts_fit(line_texts(lines@)),
    ensures
        footer_views(footer@) == footer_of(line_texts(lines@), usable_width as int),
{
    let ghost texts = line_texts(lines@);
    let n: usize = lines.len();
    let mut footer: Vec<FooterLine> = Vec::new();
    let mut i: usize = 0;
    while i < n
        invariant
            is_length(usable_width as int),
            texts == line_texts(lines@),
            texts_fit(texts),
            n == lines.len(),
            0 <= i <= n,
            footer.len() == i,
            forall|j: int|
                0 <= j < i ==> (#[trigger] footer[j])@ == footer_line_at(
                    texts,
                    usable_width as int,
                    j,
                ),
        decreases n - i,
    {
        let line: &String = &lines[i];
        assert(texts[i as int] == line@);
        let chars: usize = line.as_str().unicode_len();
        let width: i64 = (chars as i64) * 1000;
        let x: i64 = half_of(usable_width - width);
        let y: i64 = FOOTER_TOP - (i as i64) * FOOTER_LINE_GAP;
        footer.push(FooterLine { text: line.clone(), x, y });
        i = i + 1;
    }
    assert(footer_views(footer@) =~= footer_of(texts, usable_width as int));
    footer
}

/// Whether the footer arithmetic accepts the lines.
fn lines_fit(lines: &Vec<String>) -> (ok: bool)
    ensures
        ok == texts_fit(line_texts(lines@)),
{
    let ghost texts = line_texts(lines@);
    let n: usize = lines.len();
    if n > MAX_COUNT {
        return false;
    }
    let mut i: usize = 0;
    while i < n
        invariant
            texts == line_texts(lines@),
            n == lines.len(),
            0 <= i <= n,
            forall|j: int| 0 <= j < i ==> (#[trigger] texts[j]).len() <= MAX_COUNT,
        decreases n - i,
    {
        assert(texts[i as int] == lines@[i as int]@);
        if lines[i].as_str().unicode_len() > MAX_COUNT {
            return false;
        }
        i = i + 1;
    }
    true
}

/// The footer of a page: `paragraph`, wrapped at `FOOTER_COLUMNS` columns,
/// each line centred in `usable_width`.  `None` where the width is no length
/// or the wrapped lines are too many or too long to place.
pub fn page_footer(paragraph: &str, usable_width: i64) -> (r: Option<Vec<FooterLine>>)
    ensures
        r is Some <==> is_length(usable_width as int) && texts_fit(
            wrapped_lines(paragraph@, FOOTER_COLUMNS as int),
        ),
        r matches Some(footer) ==> footer_views(footer@) == footer_of(
            wrapped_lines(paragraph@, FOOTER_COLUMNS as int),
            usable_width as int,
        ),
{
    if !(-crate::geometry::MAX_LENGTH <= usable_width && usable_width
        <= crate::geometry::MAX_LENGTH) {
        return None;
    }
    let lines: Vec<String> = wrap_text(paragraph, FOOTER_COLUMNS);
    if !lines_fit(&lines) {
        return None;
    }
    Some(place_footer(&lines, usable_width))
}

} // verus!
