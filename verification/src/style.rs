//! Styles: the palette, the styles of the parts of the screen, and the
//! styler that cuts a line into styled tokens.

use crate::text::{chars_of, find_from, run_before, same_text, string_of};
use regex::Regex;
use vstd::prelude::*;

verus! {

/// A color, by its red, green and blue parts.
#[derive(Clone, Copy, Debug, PartialEq, Eq)]
pub enum Color {
    Rgb(u8, u8, u8),
}

/// How a piece of text is painted: a foreground and a background, each
/// left to the terminal where it is `None`.
#[derive(Clone, Copy, Debug, PartialEq, Eq)]
pub struct Style {
    pub fg: Option<Color>,
    pub bg: Option<Color>,
}

// The palette.

pub open spec fn palette_header_selected() -> Color {
    Color::Rgb(42, 126, 105)
}

pub open spec fn palette_header() -> Color {
    Color::Rgb(0, 59, 59)
}

pub open spec fn palette_line_num() -> Color {
    Color::Rgb(42, 126, 105)
}

pub open spec fn palette_highlight() -> Color {
    Color::Rgb(251, 203, 179)
}

pub open spec fn palette_background() -> Color {
    Color::Rgb(32, 64, 56)
}

pub open spec fn palette_footer() -> Color {
    Color::Rgb(0, 59, 59)
}

pub open spec fn palette_popup() -> Color {
    Color::Rgb(42, 126, 105)
}

pub open spec fn palette_popup_header() -> Color {
    Color::Rgb(0, 71, 71)
}

pub open spec fn palette_button() -> Color {
    Color::Rgb(0, 71, 71)
}

pub open spec fn palette_button_select() -> Color {
    Color::Rgb(191, 141, 124)
}

impl Style {
    /// The style that paints nothing.
    pub open spec fn plain() -> Style {
        Style { fg: None, bg: None }
    }

    /// The style with this foreground and no background.
    pub open spec fn on_fg(color: Color) -> Style {
        Style { fg: Some(color), bg: None }
    }

    /// The style with this background and no foreground.
    pub open spec fn on_bg(color: Color) -> Style {
        Style { fg: None, bg: Some(color) }
    }
}

/// A piece of text with its style.
#[derive(Debug, PartialEq, Eq)]
pub struct Span {
    pub content: String,
    pub style: Style,
}

/// What a span is: its text and its style.
pub struct SpanView {
    pub content: Seq<char>,
    pub style: Style,
}

impl View for Span {
    type V = SpanView;

    open spec fn view(&self) -> SpanView {
        SpanView { content: self.content@, style: self.style }
    }
}

/// The views of a sequence of spans.
pub open spec fn span_views(spans: Seq<Span>) -> Seq<SpanView> {
    Seq::new(spans.len(), |i: int| spans[i]@)
}

/// The tokens that the Rust profile highlights: `fn`, `&`, and the round
/// and curly brackets.
pub open spec fn is_rust_mark(token: Seq<char>) -> bool {
    ||| token == seq!['f', 'n']
    ||| token == seq!['&']
    ||| token == seq!['{']
    ||| token == seq!['}']
    ||| token == seq!['(']
    ||| token == seq![')']
}

/// The style of a token in a Rust file.
pub open spec fn rust_style_of(token: Seq<char>) -> Style {
    if is_rust_mark(token) {
        Style::on_fg(palette_highlight())
    } else {
        Style::plain()
    }
}

/// The style of a token in a file with this extension. The extension `rs`
/// selects the Rust profile; any other leaves every token plain.
pub open spec fn token_style(token: Seq<char>, extension: Seq<char>) -> Style {
    if extension == seq!['r', 's'] {
        rust_style_of(token)
    } else {
        Style::plain()
    }
}

/// The tokens of a line: the pieces between its single spaces. A line
/// without a space is one token; two spaces in a row have an empty token
/// between them.
pub open spec fn space_tokens(text: Seq<char>) -> Seq<Seq<char>>
    decreases text.len(),
{
    let end = run_before(text, ' ');
    if end < 0 || end >= text.len() {
        seq![text]
    } else {
        seq![text.take(end)] + space_tokens(text.skip(end + 1))
    }
}

/// The span at place `i` among the spans for `tokens`: the tokens in their
/// styles stand at the even places, a plain space at each odd place.
pub open spec fn styled_at(tokens: Seq<Seq<char>>, extension: Seq<char>, i: int) -> SpanView {
    if i % 2 == 0 {
        SpanView { content: tokens[i / 2], style: token_style(tokens[i / 2], extension) }
    } else {
        SpanView { content: seq![' '], style: Style::plain() }
    }
}

/// The spans for a sequence of tokens: each token in its style, with a
/// plain space between one token and the next, and none after the last.
pub open spec fn styled_tokens(tokens: Seq<Seq<char>>, extension: Seq<char>) -> Seq<SpanView> {
    Seq::new(
        if tokens.len() == 0 {
            0
        } else {
            (2 * tokens.len() - 1) as nat
        },
        |i: int| styled_at(tokens, extension, i),
    )
}

/// The spans of a line of a file with this extension.
pub open spec fn styled_line(text: Seq<char>, extension: Seq<char>) -> Seq<SpanView> {
    styled_tokens(space_tokens(text), extension)
}

/// The style that paints nothing.
pub fn no_style() -> (style: Style)
    ensures
        style == Style::plain(),
{
    Style { fg: None, bg: None }
}

/// The style of a token in a Rust file.
pub fn rust_style(token: &str) -> (style: Style)
    ensures
        style == rust_style_of(token@),
{
    proof {
        reveal_strlit("fn");
        reveal_strlit("&");
        reveal_strlit("{");
        reveal_strlit("}");
        reveal_strlit("(");
        reveal_strlit(")");
        assert("fn"@ =~= seq!['f', 'n']);
        assert("&"@ =~= seq!['&']);
        assert("{"@ =~= seq!['{']);
        assert("}"@ =~= seq!['}']);
        assert("("@ =~= seq!['(']);
        assert(")"@ =~= seq![')']);
    }
    if same_text(token, "fn") || same_text(token, "&") || same_text(token, "{") || same_text(
        token,
        "}",
    ) || same_text(token, "(") || same_text(token, ")") {
        Style { fg: Some(Color::Rgb(251, 203, 179)), bg: None }
    } else {
        no_style()
    }
}

/// The style of a token in a file with this extension.
pub fn get_token_style(token: &str, extension: &str) -> (style: Style)
    ensures
        style == token_style(token@, extension@),
{
    proof {
        reveal_strlit("rs");
        assert("rs"@ =~= seq!['r', 's']);
    }
    if same_text(extension, "rs") {
        rust_style(token)
    } else {
        no_style()
    }
}

/// Cuts a line into styled tokens: its pieces between single spaces, and
/// the spaces themselves, so that the spans joined are the line.
pub fn style_line(line: String, extension: &str) -> (spans: Vec<Span>)
    ensures
        span_views(spans@) == styled_line(line@, extension@),
{
    let chars = chars_of(line.as_str());
    let mut spans: Vec<Span> = Vec::new();
    let mut start: usize = 0;
    let mut more = true;
    let ghost mut done: Seq<Seq<char>> = Seq::empty();
    proof {
        reveal_strlit(" ");
        assert(" "@ =~= seq![' ']);
        assert(line@.skip(0) =~= line@);
    }
    while more
        invariant
            start <= chars.len(),
            chars@ == line@,
            " "@ == seq![' '],
            more ==> spans.len() == 2 * done.len(),
            !more ==> spans.len() == 2 * done.len() - 1,
            forall|i: int|
                0 <= i < spans.len() ==> (#[trigger] spans[i])@ == styled_at(done, extension@, i),
            more ==> done + space_tokens(line@.skip(start as int)) == space_tokens(line@),
            !more ==> done == space_tokens(line@),
        decreases chars.len() - start + (if more { 1int } else { 0int }),
    {
        let end = find_from(&chars, start, ' ');
        let token = string_of(&chars, start, end);
        let style = get_token_style(token.as_str(), extension);
        let ghost rest = line@.skip(start as int);
        let ghost next = done.push(token@);
        proof {
            assert(rest.take(end - start) =~= chars@.subrange(start as int, end as int));
            if end < chars.len() {
                assert(rest.skip(end - start + 1) =~= line@.skip(end + 1));
                assert(next + space_tokens(line@.skip(end + 1)) =~= done + space_tokens(rest));
            } else {
                assert(token@ =~= rest);
                assert(next =~= done + space_tokens(rest));
            }
            assert forall|i: int| 0 <= i < spans.len() implies (#[trigger] spans[i])@
                == styled_at(next, extension@, i) by {
                assert(next[i / 2] == done[i / 2]);
            }
        }
        spans.push(Span { content: token, style });
        if end < chars.len() {
            spans.push(Span { content: " ".to_owned(), style: no_style() });
            start = end + 1;
        } else {
            more = false;
        }
        proof {
            done = next;
        }
    }
    assert(span_views(spans@) =~= styled_line(line@, extension@));
    spans
}

/// Whether a pattern is one that `Regex::new` compiles.
pub uninterp spec fn regex_compiles(pattern: Seq<char>) -> bool;

/// Whether the regular expression `pattern` matches somewhere in `text`.
pub uninterp spec fn regex_match(pattern: Seq<char>, text: Seq<char>) -> bool;

/// Compiles `pattern` with `Regex::new` and asks `Regex::is_match` whether
/// it matches anywhere in `text`. `None` stands for a pattern that does not
/// compile.
#[verifier::external_body]
fn pattern_found(pattern: &str, text: &str) -> (found: Option<bool>)
    ensures
        found is Some <==> regex_compiles(pattern@),
        found matches Some(b) ==> b == regex_match(pattern@, text@),
{
    match Regex::new(pattern) {
        Ok(re) => Some(re.is_match(text)),
        Err(_) => None,
    }
}

/// The span for a token of the editor's margin: in the color of line
/// numbers where it was found to be one, plain where not.
pub open spec fn margin_span(token: Seq<char>, is_line_num: bool) -> SpanView {
    SpanView {
        content: token,
        style: if is_line_num {
            Style::on_fg(palette_line_num())
        } else {
            Style::plain()
        },
    }
}

/// The pattern of a line number in the margin: an optional space, digits,
/// and a tilde.
pub open spec fn line_num_pattern() -> Seq<char> {
    " ?[0-9]*~"@
}

/// Styles a token of the margin, given whether it is a line number.
pub fn margin_style(token: String, is_line_num: bool) -> (span: Span)
    ensures
        span@ == margin_span(token@, is_line_num),
{
    if is_line_num {
        Span { content: token, style: Style { fg: Some(Color::Rgb(42, 126, 105)), bg: None } }
    } else {
        Span { content: token, style: no_style() }
    }
}

/// Styles a token of the editor's margin: a line number is painted in the
/// color of line numbers.
pub fn editor_style(token: String) -> (span: Span)
    ensures
        span@ == margin_span(
            token@,
            regex_compiles(line_num_pattern()) && regex_match(line_num_pattern(), token@),
        ),
{
    let found = pattern_found(" ?[0-9]*~", token.as_str());
    match found {
        Some(is_line_num) => margin_style(token, is_line_num),
        None => margin_style(token, false),
    }
}

/// The style of the text area.
pub fn style_background() -> (style: Style)
    ensures
        style == Style::on_bg(palette_background()),
{
    Style { fg: None, bg: Some(Color::Rgb(32, 64, 56)) }
}

/// The style of a file name in the header, that of the file shown or of another.
pub fn header_style(selected: bool) -> (style: Style)
    ensures
        style == Style::on_bg(
            if selected {
                palette_header_selected()
            } else {
                palette_header()
            },
        ),
{
    if selected {
        Style { fg: None, bg: Some(Color::Rgb(42, 126, 105)) }
    } else {
        Style { fg: None, bg: Some(Color::Rgb(0, 59, 59)) }
    }
}

/// The style of the footer.
pub fn footer_style() -> (style: Style)
    ensures
        style == Style::on_bg(palette_footer()),
{
    Style { fg: None, bg: Some(Color::Rgb(0, 59, 59)) }
}

/// The style of a popup, of its header or of its body.
pub fn popup_style(header: bool) -> (style: Style)
    ensures
        style == Style::on_bg(
            if header {
                palette_popup_header()
            } else {
                palette_popup()
            },
        ),
{
    if header {
        Style { fg: None, bg: Some(Color::Rgb(0, 71, 71)) }
    } else {
        Style { fg: None, bg: Some(Color::Rgb(42, 126, 105)) }
    }
}

/// The style of a button, of the one selected or of another.
pub fn button_style(selected: bool) -> (style: Style)
    ensures
        style == Style::on_bg(
            if selected {
                palette_button_select()
            } else {
                palette_button()
            },
        ),
{
    if selected {
        Style { fg: None, bg: Some(Color::Rgb(191, 141, 124)) }
    } else {
        Style { fg: None, bg: Some(Color::Rgb(0, 71, 71)) }
    }
}

} // verus!
