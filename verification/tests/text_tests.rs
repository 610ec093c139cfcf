use weather_cli::style::{Line, Span, Style};
use weather_cli::text::same_text;

#[test]
fn same_text_compares_characters() {
    assert!(same_text("", ""));
    assert!(same_text("exit", "exit"));
    assert!(!same_text("exit", "Exit"));
    assert!(!same_text("exit", "exi"));
    assert!(!same_text("exi", "exit"));
    assert!(!same_text("", "q"));
    assert!(same_text("\u{1f327}\u{fe0f}", "\u{1f327}\u{fe0f}"));
    assert!(!same_text("\u{1f327}\u{fe0f}", "\u{1f327}"));
    assert!(!same_text("\u{e9}", "e\u{301}"));
}

#[test]
fn a_new_line_is_blank() {
    let line = Line::new();
    assert!(line.spans.is_empty());
    assert_eq!(line.text(), "");
}

#[test]
fn push_appends_spans_in_order() {
    let mut line = Line::new();
    line.push(String::from("Error:"), Style::BrightRed);
    line.push(String::from(" gone"), Style::Plain);
    assert_eq!(
        line.spans,
        vec![
            Span { text: String::from("Error:"), style: Style::BrightRed },
            Span { text: String::from(" gone"), style: Style::Plain },
        ]
    );
    assert_eq!(line.text(), "Error: gone");
}

#[test]
fn span_keeps_text_and_style() {
    let span = Span::new(String::from("London"), Style::Bold);
    assert_eq!(span.text, "London");
    assert_eq!(span.style, Style::Bold);
}
