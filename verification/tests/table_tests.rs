use treeclip::table::{border_chars, Align, BorderStyle, BoxTheme, FormattedBox};
use treeclip::utils::{format_bytes, format_number};
use unicode_width::UnicodeWidthStr;

#[test]
fn renders_properly_aligned_box() {
    let output = FormattedBox::new("Content Statistics")
        .row("📝 Characters:", "1")
        .row("📄 Lines:", "100")
        .row("💬 Words:", "1,000")
        .row("💾 Size:", "976.6 KB")
        .render();

    println!("{}", output);
    assert_eq!(
        output,
        "┌──────────────────────────────────────────────────┐
│                Content Statistics                │
├──────────────────────────────────────────────────┤
│  📝 Characters:                               1  │
│  📄 Lines:                                  100  │
│  💬 Words:                                1,000  │
│  💾 Size:                              976.6 KB  │
└──────────────────────────────────────────────────┘"
    );
}

#[test]
fn renders_properly_aligned_box_2() {
    let output = FormattedBox::new("Statistics")
        .row("📝 Characters:", "100,000,000,000")
        .row("📄 Lines:", "100,000,000")
        .row("💬 Words:", "1,000,000")
        .row("💾 Size:", "1011.6 MB")
        .render();

    println!("{}", output);
    assert_eq!(
        output,
        "┌──────────────────────────────────────────────────┐
│                    Statistics                    │
├──────────────────────────────────────────────────┤
│  📝 Characters:                 100,000,000,000  │
│  📄 Lines:                          100,000,000  │
│  💬 Words:                            1,000,000  │
│  💾 Size:                             1011.6 MB  │
└──────────────────────────────────────────────────┘"
    );
}

#[test]
fn test_message_line() {
    let banner = FormattedBox::new("✨  T R E E C L I P  ✨")
        .message_line("Your friendly code extraction companion!")
        .message_line("")
        .message_line("♡( ◡‿◡ )  Ready to explore your files~")
        .render();

    println!("{}", banner);
    assert_eq!(
        banner,
        "┌────────────────────────────────────────────┐
│           ✨  T R E E C L I P  ✨          │
│   Your friendly code extraction companion! │
│                                            │
│    ♡( ◡‿◡ )  Ready to explore your files~  │
└────────────────────────────────────────────┘"
    );
}

#[test]
fn test_message_line_advanced() {
    let banner = FormattedBox::new("✨  T R E E C L I P  ✨")
        .border_style(BorderStyle::Rounded)
        .padding(3)
        .align(Align::Center)
        .message_line("Your friendly code extraction companion!")
        .message_line("")
        .message_line("♡( ◡‿◡ )  Ready to explore your files~")
        .render();

    println!("{}", banner);
    assert_eq!(
        banner,
        "╭──────────────────────────────────────────────╮
│             ✨  T R E E C L I P  ✨          │
│    Your friendly code extraction companion!  │
│                                              │
│     ♡( ◡‿◡ )  Ready to explore your files~   │
╰──────────────────────────────────────────────╯"
    );
}

#[test]
fn test() {
    // expected output:
    // ┌─────────────────────────────────────────────────┐
    // │                Content Statistics               │
    // ├─────────────────────────────────────────────────┤
    // │  📝 Characters:                               1 │
    // │  📄 Lines:                                  100 │
    // │  💬 Words:                                1,000 │
    // │  💾 Size:                              976.6 KB │
    // └─────────────────────────────────────────────────┘
    assert_eq!(
        render_stats(1, 100, 1000, 1_000_000),
        "┌─────────────────────────────────────────────────┐
│                Content Statistics               │
├─────────────────────────────────────────────────┤
│  📝 Characters:                              1  │
│  📄 Lines:                                 100  │
│  💬 Words:                               1,000  │
│  💾 Size:                             976.6 KB  │
└─────────────────────────────────────────────────┘"
    );
}

fn render_stats(chars: i64, lines: i64, words: i64, bytes: u64) -> String {
    let label_width = 18;
    let value_width = 25;

    let rows = vec![
        ("📝 Characters:", format_number(chars)),
        ("📄 Lines:", format_number(lines)),
        ("💬 Words:", format_number(words)),
        ("💾 Size:", format_bytes(bytes as usize)),
    ];

    let mut out = String::new();
    out.push_str("┌─────────────────────────────────────────────────┐\n");
    out.push_str("│                Content Statistics               │\n");
    out.push_str("├─────────────────────────────────────────────────┤\n");

    for (label, value) in rows {
        out.push_str(&format!(
            "│  {}  {}  │\n",
            pad(label, label_width),
            pad_right_align(&value, value_width)
        ));
    }

    out.push_str("└─────────────────────────────────────────────────┘");
    out
}

fn pad(s: &str, width: usize) -> String {
    let w = UnicodeWidthStr::width(s);
    format!("{}{}", s, " ".repeat(width.saturating_sub(w)))
}

fn pad_right_align(s: &str, width: usize) -> String {
    let w = UnicodeWidthStr::width(s);
    format!("{}{}", " ".repeat(width.saturating_sub(w)), s)
}

#[test]
fn a_box_is_aligned_by_displayed_width_not_by_length() {
    // one wide character takes two columns
    let wide = FormattedBox::new("日本").padding(1).align(Align::Left).message_line("abcd").render();
    assert_eq!(wide, "┌──────┐\n│ 日本 │\n│ abcd │\n└──────┘");
}

#[test]
fn left_alignment_and_double_borders() {
    let out = FormattedBox::new("T")
        .theme(BoxTheme { padding: 0, border: BorderStyle::Double, align: Align::Left })
        .message_line("abc")
        .render();
    assert_eq!(out, "╔═══╗\n║T  ║\n║abc║\n╚═══╝");
    let b = border_chars(BorderStyle::Rounded);
    assert_eq!((b.top_left, b.top_right, b.bottom_left, b.bottom_right), ('╭', '╮', '╰', '╯'));
    assert_eq!((b.h, b.v), ('─', '│'));
}

#[test]
fn a_box_without_rows_holds_its_title() {
    let out = FormattedBox::new("ab").render();
    assert_eq!(out, "┌──────┐\n│   ab │\n└──────┘");
}

#[test]
fn a_mixed_box_is_a_box_of_statistics() {
    let out = FormattedBox::new("S").message_line("not shown").row("k", "v").try_render().unwrap();
    assert!(out.contains("│  k                                            v  │"));
    assert!(!out.contains("not shown"));
}

#[test]
fn a_box_that_cannot_be_drawn_is_not_drawn() {
    let title = "x".repeat(51);
    let b = FormattedBox::new(&title).row("k", "v");
    assert!(!b.can_render());
    assert!(b.try_render().is_none());
    let ok = FormattedBox::new(&"x".repeat(50)).row("k", "v");
    assert!(ok.can_render());
    assert!(ok.try_render().unwrap().contains(&format!("│{}│", "x".repeat(50))));
    let huge = FormattedBox::new("t").padding(usize::MAX).message_line("m");
    assert!(huge.try_render().is_none());
}
