//! The styled form of a buffer: every line behind its number in the margin.

use crate::style::{
    editor_style, line_num_pattern, margin_span, regex_compiles, regex_match, span_views,
    style_line, styled_line, Span, SpanView,
};
use crate::text::{chars_of, views};
use vstd::prelude::*;

verus! {

/// The character of a decimal digit.
pub open spec fn digit(d: int) -> char {
    (48 + d) as u8 as char
}

/// A number in decimal.
pub open spec fn decimal(n: nat) -> Seq<char>
    decreases n,
{
    if n < 10 {
        seq![digit(n as int)]
    } else {
        decimal(n / 10).push(digit((n % 10) as int))
    }
}

/// `width` spaces, none where `width` is not positive.
pub open spec fn spaces(width: int) -> Seq<char> {
    Seq::new(
        if width > 0 {
            width as nat
        } else {
            0
        },
        |i: int| ' ',
    )
}

/// The margin of line `index` in a buffer of `count` lines: the index in
/// decimal, set to the right in the width of `count`, then a tilde and a
/// space.
pub open spec fn margin_text(index: nat, count: nat) -> Seq<char> {
    spaces(decimal(count).len() - decimal(index).len()) + decimal(index) + seq!['~', ' ']
}

/// `text` with four spaces in place of every tab.
pub open spec fn expand_tabs(text: Seq<char>) -> Seq<char>
    decreases text.len(),
{
    if text.len() == 0 {
        text
    } else if text.last() == '\t' {
        expand_tabs(text.drop_last()) + spaces(4)
    } else {
        expand_tabs(text.drop_last()).push(text.last())
    }
}

/// The spans of line `index` in a buffer of `count` lines: its margin,
/// then its tokens.
pub open spec fn rendered_line(
    index: nat,
    count: nat,
    line: Seq<char>,
    extension: Seq<char>,
) -> Seq<SpanView> {
    let margin = margin_text(index, count);
    seq![
        margin_span(
            margin,
            regex_compiles(line_num_pattern()) && regex_match(line_num_pattern(), margin),
        ),
    ] + styled_line(expand_tabs(line), extension)
}

/// The styled form of the lines of a file with this extension.
pub open spec fn rendered(lines: Seq<Seq<char>>, extension: Seq<char>) -> Seq<Seq<SpanView>> {
    Seq::new(lines.len(), |i: int| rendered_line(i as nat, lines.len(), lines[i], extension))
}

/// The views of styled lines.
pub open spec fn text_views(styled: Seq<Vec<Span>>) -> Seq<Seq<SpanView>> {
    Seq::new(styled.len(), |i: int| span_views(styled[i]@))
}

/// A number in decimal.
pub fn decimal_digits(n: usize) -> (digits: Vec<char>)
    ensures
        digits@ == decimal(n as nat),
    decreases n,
{
    if n < 10 {
        let mut digits: Vec<char> = Vec::new();
        digits.push((48u8 + n as u8) as char);
        assert(digits@ =~= decimal(n as nat));
        digits
    } else {
        let mut digits = decimal_digits(n / 10);
        digits.push((48u8 + (n % 10) as u8) as char);
        digits
    }
}

/// The margin of line `index` in a buffer of `count` lines.
pub fn margin(index: usize, count: usize) -> (text: String)
    ensures
        text@ == margin_text(index as nat, count as nat),
{
    let digits = decimal_digits(index);
    let width = decimal_digits(count).len();
    let mut text = String::new();
    let mut i: usize = digits.len();
    while i < width
        invariant
            digits.len() <= i,
            i <= width || i == digits.len(),
            text@ == spaces(i - digits.len()),
        decreases width - i,
    {
        text.push(' ');
        i = i + 1;
        assert(text@ =~= spaces(i - digits.len()));
    }
    assert(text@ =~= spaces(width - digits.len()));
    let ghost padding = text@;
    let mut j: usize = 0;
    while j < digits.len()
        invariant
            j <= digits.len(),
            text@ == padding + digits@.take(j as int),
        decreases digits.len() - j,
    {
        text.push(digits[j]);
        j = j + 1;
        assert(text@ =~= padding + digits@.take(j as int));
    }
    assert(digits@.take(digits.len() as int) =~= digits@);
    text.push('~');
    text.push(' ');
    assert(text@ =~= margin_text(index as nat, count as nat));
    text
}

/// `text` with four spaces in place of every tab.
pub fn with_tabs_expanded(text: &str) -> (expanded: String)
    ensures
        expanded@ == expand_tabs(text@),
{
    let chars = chars_of(text);
    let mut expanded = String::new();
    let mut i: usize = 0;
    assert(chars@.take(0) =~= Seq::<char>::empty());
    while i < chars.len()
        invariant
            i <= chars.len(),
            expanded@ == expand_tabs(chars@.take(i as int)),
        decreases chars.len() - i,
    {
        assert(chars@.take(i + 1).drop_last() =~= chars@.take(i as int));
        let ghost before = expanded@;
        if chars[i] == '\t' {
            expanded.push(' ');
            expanded.push(' ');
            expanded.push(' ');
            expanded.push(' ');
            assert(expanded@ =~= before + spaces(4));
        } else {
            expanded.push(chars[i]);
        }
        i = i + 1;
    }
    assert(chars@.take(chars.len() as int) =~= chars@);
    expanded
}

/// Styles line `index` of a buffer of `count` lines.
pub fn render_line(index: usize, count: usize, line: &str, extension: &str) -> (spans: Vec<Span>)
    ensures
        span_views(spans@) == rendered_line(index as nat, count as nat, line@, extension@),
{
    let mut spans = style_line(with_tabs_expanded(line), extension);
    let ghost tokens = span_views(spans@);
    let number = editor_style(margin(index, count));
    spans.insert(0, number);
    assert(span_views(spans@) =~= seq![number@] + tokens);
    spans
}

/// Styles the lines of a file with this extension.
pub fn render(lines: &Vec<String>, extension: &str) -> (styled: Vec<Vec<Span>>)
    ensures
        text_views(styled@) == rendered(views(lines@), extension@),
{
    let mut styled: Vec<Vec<Span>> = Vec::new();
    let mut i: usize = 0;
    while i < lines.len()
        invariant
            i <= lines.len(),
            styled.len() == i,
            forall|k: int|
                0 <= k < i ==> span_views(#[trigger] styled[k]@) == rendered_line(
                    k as nat,
                    lines.len() as nat,
                    lines[k]@,
                    extension@,
                ),
        decreases lines.len() - i,
    {
        styled.push(render_line(i, lines.len(), lines[i].as_str(), extension));
        i = i + 1;
    }
    assert(text_views(styled@) =~= rendered(views(lines@), extension@));
    styled
}

} // verus!
