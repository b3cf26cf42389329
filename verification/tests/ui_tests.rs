use treeclip::animations::{progress_counter, Spinner};
use treeclip::banner::{
    banner, get_random_banner, get_random_goodbye, get_random_kaomoji, goodbye_message, kaomoji,
};
use treeclip::formatter::{
    config_line, list_item, section_header, stats_table, ConfigFormatter, SizeClass, StatsBox, Tint,
};
use treeclip::text::{decimal_string, is_blank, split_lines, trim_end};

fn without_codes(s: &str) -> String {
    let mut out = String::new();
    let mut chars = s.chars();
    while let Some(c) = chars.next() {
        if c == '\u{1b}' {
            for d in chars.by_ref() {
                if d == 'm' {
                    break;
                }
            }
        } else {
            out.push(c);
        }
    }
    out
}

#[test]
fn progress_is_reported_every_interval() {
    let emojis = ["🌱", "🌿", "🍃"];
    assert_eq!(progress_counter(&emojis, 5, 5).unwrap(), "🌿 Collected 5 files so far...");
    assert_eq!(progress_counter(&emojis, 15, 5).unwrap(), "🌱 Collected 15 files so far...");
    assert_eq!(progress_counter(&emojis, 0, 5).unwrap(), "🌱 Collected 0 files so far...");
    assert_eq!(progress_counter(&emojis, 10, 5).unwrap(), "🍃 Collected 10 files so far...");
    assert!(progress_counter(&emojis, 7, 5).is_none());
    assert!(progress_counter(&emojis, 10, 0).is_none());
    assert!(progress_counter(&[], 10, 5).is_none());
}

#[test]
fn spinners_have_their_frames_and_colours() {
    let tree = Spinner::new_tree();
    assert_eq!(tree.len(), 6);
    assert_eq!(tree.frame(0), ("🌱", Tint::Green));
    assert_eq!(tree.frame(3), ("🌳", Tint::BrightCyan));
    assert_eq!(tree.frame(4), ("🌲", Tint::Green));
    assert_eq!(tree.frame_duration(1200), 200);
    let loading = Spinner::new_loading();
    assert_eq!(loading.len(), 10);
    assert_eq!(loading.frame(9), ("⠏", Tint::BrightCyan));
    assert_eq!(loading.frame(2), ("⠹", Tint::Blue));
    assert_eq!(loading.frame_duration(805), 80);
}

#[test]
fn lines_of_the_settings_report() {
    assert_eq!(section_header("🔧", "Settings", "---"), "\n🔧 Settings\n---");
    assert_eq!(config_line("🌍", "Root Path", "/w"), "  🌍 Root Path /w");
    assert_eq!(list_item("▸", "target"), "  ▸ target");
    let header = ConfigFormatter::format_section_header("Configuration Settings", "🔧");
    assert_eq!(
        without_codes(&header),
        format!("\n🔧 Configuration Settings\n{}", "─".repeat(55))
    );
    assert_eq!(without_codes(&ConfigFormatter::format_list_item("▸", "*.log")), "  ▸ *.log");
    let line = ConfigFormatter::format_config_line("✏️", "Editor", ConfigFormatter::format_bool(true));
    assert_eq!(without_codes(&line), "  ✏️ Editor             ✓ Yes");
    let line =
        ConfigFormatter::format_config_line("🗑️", "Cleanup", ConfigFormatter::format_bool(false));
    assert_eq!(without_codes(&line), "  🗑️ Cleanup            ✗ No");
    let shown = ConfigFormatter::format_path("out.txt", Some("/w/out.txt"));
    assert_eq!(&*shown, "/w/out.txt");
    let shown = ConfigFormatter::format_path("out.txt", None);
    assert_eq!(&*shown, "out.txt");
}

#[test]
fn the_box_of_statistics() {
    let expected = "┌─────────────────────────────────────────────────┐
│           📊 Content Statistics                 │
├─────────────────────────────────────────────────┤
│  📝 Characters:                    1,234,567  │
│  📄 Lines:                                12  │
│  💬 Words:                               345  │
│  💾 Size:                             1.2 MB  │
└─────────────────────────────────────────────────┘";
    let stats = StatsBox::new(12, 1_234_567, 345, 1_258_291);
    assert_eq!(without_codes(&stats.render()), expected);
    assert_eq!(
        stats_table("C", "L", "W", "S"),
        "┌─────────────────────────────────────────────────┐
│           📊 Content Statistics                 │
├─────────────────────────────────────────────────┤
│  📝 Characters:    C  │
│  📄 Lines:         L  │
│  💬 Words:         W  │
│  💾 Size:          S  │
└─────────────────────────────────────────────────┘"
    );
}

#[test]
fn counts_are_shown_with_separators_to_the_right_of_their_field() {
    let shown = without_codes(&StatsBox::new(1, 1000, usize::MAX, 0).render());
    let lines: Vec<&str> = shown.lines().collect();
    assert_eq!(lines[3], format!("│  📝 Characters:    {:>25}  │", "1,000"));
    assert_eq!(lines[4], format!("│  📄 Lines:         {:>25}  │", "1"));
    assert_eq!(lines[5], format!("│  💬 Words:         {:>25}  │", "9,223,372,036,854,775,807"));
    assert_eq!(lines[6], format!("│  💾 Size:          {:>25}  │", "0 B"));
}

#[test]
fn the_size_of_a_bundle_has_four_classes() {
    let cases = [
        (0, SizeClass::Tiny, "🐣", "Tiny but mighty!"),
        (1023, SizeClass::Tiny, "🐣", "Tiny but mighty!"),
        (1024, SizeClass::Handy, "🐇", "Perfect size! Easy to handle~"),
        (102399, SizeClass::Handy, "🐇", "Perfect size! Easy to handle~"),
        (102400, SizeClass::Big, "🐘", "That's a big one! Impressive~"),
        (1048575, SizeClass::Big, "🐘", "That's a big one! Impressive~"),
        (1048576, SizeClass::Huge, "🐋", "Whoa! You've got a whale of content!"),
        (usize::MAX, SizeClass::Huge, "🐋", "Whoa! You've got a whale of content!"),
    ];
    for (bytes, class, emoji, remark) in cases {
        let stats = StatsBox::new(0, 0, 0, bytes);
        assert_eq!(stats.class(), class);
        let (e, m) = stats.get_size_message();
        assert_eq!(e, emoji);
        assert_eq!(without_codes(&m), remark);
    }
}

#[test]
fn banners_and_goodbyes() {
    assert_eq!(
        banner(1).unwrap(),
        "╭──────────────────────────────────────────────╮
│             ✨  T R E E C L I P  ✨          │
│    Your friendly code extraction companion!  │
│                                              │
│     ♡( ◡‿◡ )  Ready to explore your files~   │
╰──────────────────────────────────────────────╯"
    );
    assert!(banner(0).unwrap().starts_with("╔"));
    assert!(banner(2).unwrap().contains("Fast • Simple • Cute"));
    assert_eq!(kaomoji(0), "ʕ•ᴥ•ʔ");
    assert_eq!(kaomoji(19), "(ﾉ^ヮ^)ﾉ*:・ﾟ✧");
    assert_eq!(goodbye_message(0), "✨ Mission accomplished! Time to shine!");
    assert_eq!(goodbye_message(7), "🎊 Fantastic! Another tree successfully clipped!");
    for _ in 0..50 {
        let face = get_random_kaomoji();
        assert!((0..20).any(|i| kaomoji(i) == face));
        let bye = get_random_goodbye();
        assert!((0..8).any(|i| goodbye_message(i) == bye));
        let drawn = get_random_banner().unwrap();
        assert!((0..3).any(|i| banner(i).unwrap() == drawn));
    }
}

#[test]
fn the_pick_is_not_always_the_same() {
    let mut faces = std::collections::HashSet::new();
    let mut byes = std::collections::HashSet::new();
    for _ in 0..400 {
        faces.insert(get_random_kaomoji());
        byes.insert(get_random_goodbye());
    }
    assert!(faces.len() > 1);
    assert!(byes.len() > 1);
    assert!(faces.len() <= 20 && byes.len() <= 8);
}

#[test]
fn text_helpers() {
    assert_eq!(decimal_string(0), "0");
    assert_eq!(decimal_string(7), "7");
    assert_eq!(decimal_string(1203), "1203");
    assert_eq!(decimal_string(u128::MAX), "340282366920938463463374607431768211455");
    assert_eq!(trim_end("a b \n\t"), "a b");
    assert_eq!(trim_end("   "), "");
    assert_eq!(trim_end(""), "");
    assert_eq!(trim_end(" a"), " a");
    assert!(is_blank(""));
    assert!(is_blank(" \n\u{3000}"));
    assert!(!is_blank(" x "));
    assert_eq!(split_lines("a\r\n\r\nb"), vec!["a", "", "b"]);
    assert_eq!(split_lines("a\r\n\r\nb").len(), "a\r\n\r\nb".lines().count());
}
