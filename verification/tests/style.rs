use rocket_editor::render::{decimal_digits, margin, render, render_line, with_tabs_expanded};
use rocket_editor::style::{
    button_style, editor_style, footer_style, get_token_style, header_style, margin_style,
    no_style, popup_style, rust_style, style_background, style_line, Color, Span, Style,
};

const HIGHLIGHT: Style = Style { fg: Some(Color::Rgb(251, 203, 179)), bg: None };
const PLAIN: Style = Style { fg: None, bg: None };
const LINE_NUM: Style = Style { fg: Some(Color::Rgb(42, 126, 105)), bg: None };

fn span(content: &str, style: Style) -> Span {
    Span { content: content.to_string(), style }
}

#[test]
fn no_style_paints_nothing() {
    assert_eq!(no_style(), PLAIN);
}

#[test]
fn rust_style_highlights_the_marks_of_rust() {
    for token in ["fn", "&", "{", "}", "(", ")"] {
        assert_eq!(rust_style(token), HIGHLIGHT);
    }
    for token in ["", "f", "fnn", "main", "()", "&&", " fn"] {
        assert_eq!(rust_style(token), PLAIN);
    }
}

#[test]
fn get_token_style_goes_by_the_extension() {
    assert_eq!(get_token_style("fn", "rs"), HIGHLIGHT);
    assert_eq!(get_token_style("fn", "r,s"), PLAIN);
    assert_eq!(get_token_style("fn", ",rs,,"), PLAIN);
    assert_eq!(get_token_style("fn", "txt"), PLAIN);
    assert_eq!(get_token_style("fn", ""), PLAIN);
    assert_eq!(get_token_style("fn", "RS"), PLAIN);
    assert_eq!(get_token_style("fn", "rss"), PLAIN);
    assert_eq!(get_token_style("main", "rs"), PLAIN);
}

#[test]
fn style_line_cuts_at_single_spaces() {
    assert_eq!(
        style_line("fn main() {".to_string(), "rs"),
        vec![
            span("fn", HIGHLIGHT),
            span(" ", PLAIN),
            span("main()", PLAIN),
            span(" ", PLAIN),
            span("{", HIGHLIGHT),
        ]
    );
}

#[test]
fn style_line_of_an_unknown_extension_is_plain() {
    assert_eq!(
        style_line("fn {".to_string(), "txt"),
        vec![span("fn", PLAIN), span(" ", PLAIN), span("{", PLAIN)]
    );
    assert_eq!(style_line("fn".to_string(), ""), vec![span("fn", PLAIN)]);
    assert_eq!(
        style_line("fn &".to_string(), "r,s"),
        vec![span("fn", PLAIN), span(" ", PLAIN), span("&", PLAIN)]
    );
}

#[test]
fn style_line_keeps_empty_tokens_between_spaces() {
    assert_eq!(
        style_line("a  b ".to_string(), "rs"),
        vec![
            span("a", PLAIN),
            span(" ", PLAIN),
            span("", PLAIN),
            span(" ", PLAIN),
            span("b", PLAIN),
            span(" ", PLAIN),
            span("", PLAIN),
        ]
    );
    assert_eq!(style_line(String::new(), "rs"), vec![span("", PLAIN)]);
    assert_eq!(
        style_line(" ".to_string(), "rs"),
        vec![span("", PLAIN), span(" ", PLAIN), span("", PLAIN)]
    );
}

#[test]
fn style_line_leaves_other_white_space_in_the_token() {
    assert_eq!(
        style_line("a\tfn b".to_string(), "rs"),
        vec![span("a\tfn", PLAIN), span(" ", PLAIN), span("b", PLAIN)]
    );
}

#[test]
fn the_spans_of_a_line_joined_are_the_line() {
    for line in ["", " ", "fn main() {", "  two  spaces  ", "a b c", "tab\there x", "é ü"] {
        for extension in ["rs", "txt", ""] {
            let spans = style_line(line.to_string(), extension);
            let joined: String = spans.iter().map(|s| s.content.as_str()).collect();
            assert_eq!(joined, line);
            let spaces = line.chars().filter(|c| *c == ' ').count();
            assert_eq!(spans.len(), 2 * spaces + 1);
        }
    }
}

#[test]
fn margin_style_paints_line_numbers() {
    assert_eq!(margin_style("3~ ".to_string(), true), span("3~ ", LINE_NUM));
    assert_eq!(margin_style("3~ ".to_string(), false), span("3~ ", PLAIN));
}

#[test]
fn editor_style_finds_line_numbers() {
    assert_eq!(editor_style(" 12~ ".to_string()), span(" 12~ ", LINE_NUM));
    assert_eq!(editor_style("0~ ".to_string()), span("0~ ", LINE_NUM));
    assert_eq!(editor_style("~".to_string()), span("~", LINE_NUM));
    assert_eq!(editor_style("12".to_string()), span("12", PLAIN));
    assert_eq!(editor_style(String::new()), span("", PLAIN));
}

#[test]
fn the_parts_of_the_screen_have_their_backgrounds() {
    let bg = |r, g, b| Style { fg: None, bg: Some(Color::Rgb(r, g, b)) };
    assert_eq!(style_background(), bg(32, 64, 56));
    assert_eq!(header_style(true), bg(42, 126, 105));
    assert_eq!(header_style(false), bg(0, 59, 59));
    assert_eq!(footer_style(), bg(0, 59, 59));
    assert_eq!(popup_style(true), bg(0, 71, 71));
    assert_eq!(popup_style(false), bg(42, 126, 105));
    assert_eq!(button_style(true), bg(191, 141, 124));
    assert_eq!(button_style(false), bg(0, 71, 71));
}

#[test]
fn decimal_digits_writes_a_number() {
    assert_eq!(decimal_digits(0), vec!['0']);
    assert_eq!(decimal_digits(7), vec!['7']);
    assert_eq!(decimal_digits(10), vec!['1', '0']);
    assert_eq!(decimal_digits(1905), vec!['1', '9', '0', '5']);
    let all: String = decimal_digits(usize::MAX).into_iter().collect();
    assert_eq!(all, usize::MAX.to_string());
}

#[test]
fn margin_sets_the_number_to_the_right() {
    assert_eq!(margin(0, 1), "0~ ");
    assert_eq!(margin(3, 120), "  3~ ");
    assert_eq!(margin(42, 120), " 42~ ");
    assert_eq!(margin(119, 120), "119~ ");
    assert_eq!(margin(9, 10), " 9~ ");
    assert_eq!(margin(12, 5), "12~ ");
    for (index, count) in [(0usize, 9usize), (5, 10), (99, 100), (7, 12345)] {
        let width = count.to_string().chars().count();
        assert_eq!(margin(index, count), format!("{:width$}~ ", index, width = width));
    }
}

#[test]
fn with_tabs_expanded_puts_four_spaces_for_a_tab() {
    assert_eq!(with_tabs_expanded("\tx\t"), "    x    ");
    assert_eq!(with_tabs_expanded("no tabs"), "no tabs");
    assert_eq!(with_tabs_expanded(""), "");
}

#[test]
fn render_line_puts_the_margin_first() {
    assert_eq!(
        render_line(1, 12, "\tfn x", "rs"),
        vec![
            span(" 1~ ", LINE_NUM),
            span("", PLAIN),
            span(" ", PLAIN),
            span("", PLAIN),
            span(" ", PLAIN),
            span("", PLAIN),
            span(" ", PLAIN),
            span("", PLAIN),
            span(" ", PLAIN),
            span("fn", HIGHLIGHT),
            span(" ", PLAIN),
            span("x", PLAIN),
        ]
    );
}

#[test]
fn render_styles_every_line() {
    let lines = vec!["fn a".to_string(), String::new()];
    assert_eq!(
        render(&lines, "rs"),
        vec![
            vec![span("0~ ", LINE_NUM), span("fn", HIGHLIGHT), span(" ", PLAIN), span("a", PLAIN)],
            vec![span("1~ ", LINE_NUM), span("", PLAIN)],
        ]
    );
    assert_eq!(render(&Vec::new(), "rs"), Vec::<Vec<Span>>::new());
}
