//! The banners that greet and the lines that take leave, one of each picked
//! at random.

use crate::table::{box_fits, box_text, Align, BorderStyle, BoxTheme, FormattedBox, RowView};
use rand::Rng;
use vstd::prelude::*;

verus! {

/// `Rng::random_range` over `0..n`, on the generator of the thread that
/// `rand::rng` hands out: some number below `n`.
#[verifier::external_body]
fn random_below(n: usize) -> (r: usize)
    requires
        n > 0,
    ensures
        r < n,
{
    rand::rng().random_range(0..n)
}

/// The faces, of which one goes with every goodbye.
pub open spec fn kaomojis() -> Seq<Seq<char>> {
    seq![
        "ʕ•ᴥ•ʔ"@,
        "(◕‿◕✿)"@,
        "(ﾉ◕ヮ◕)ﾉ*:･ﾟ✧"@,
        "✧･ﾟ: *✧･ﾟ:*"@,
        "(づ｡◕‿‿◕｡)づ"@,
        "(っ◕‿◕)っ"@,
        "♡( ◡‿◡ )"@,
        "(●´ω｀●)"@,
        "٩(◕‿◕｡)۶"@,
        "ヽ(•‿•)ノ"@,
        "(ﾉ´ з `)ノ"@,
        "(´｡• ω •｡`)"@,
        "☆ﾟ･*:.｡.☆(￣ω￣)/"@,
        "(๑˃ᴗ˂)ﻭ"@,
        "╰( ´・ω・)つ──☆"@,
        "ヾ(⌐■_■)ノ♪"@,
        "ヾ(☆▽☆)"@,
        "(ﾉ>ω<)ﾉ"@,
        "(◠‿◠✿)"@,
        "(ﾉ^ヮ^)ﾉ*:・ﾟ✧"@,
    ]
}

/// The lines that take leave.
pub open spec fn goodbye_messages() -> Seq<Seq<char>> {
    seq![
        "✨ Mission accomplished! Time to shine!"@,
        "🎯 All done! Maybe grab a cookie? 🍪"@,
        "🌟 Great work! Your code is ready for takeoff!"@,
        "💫 TreeClip adventure complete! See you next time~"@,
        "🎉 Perfect! Everything extracted successfully!"@,
        "✅ Nailed it! Your files are all bundled up!"@,
        "🚀 Launch ready! Your code awaits!"@,
        "🎊 Fantastic! Another tree successfully clipped!"@,
    ]
}

/// Face number `i`.
pub fn kaomoji(i: usize) -> (text: &'static str)
    requires
        i < 20,
    ensures
        text@ == kaomojis()[i as int],
{
    match i {
        0 => "ʕ•ᴥ•ʔ",
        1 => "(◕‿◕✿)",
        2 => "(ﾉ◕ヮ◕)ﾉ*:･ﾟ✧",
        3 => "✧･ﾟ: *✧･ﾟ:*",
        4 => "(づ｡◕‿‿◕｡)づ",
        5 => "(っ◕‿◕)っ",
        6 => "♡( ◡‿◡ )",
        7 => "(●´ω｀●)",
        8 => "٩(◕‿◕｡)۶",
        9 => "ヽ(•‿•)ノ",
        10 => "(ﾉ´ з `)ノ",
        11 => "(´｡• ω •｡`)",
        12 => "☆ﾟ･*:.｡.☆(￣ω￣)/",
        13 => "(๑˃ᴗ˂)ﻭ",
        14 => "╰( ´・ω・)つ──☆",
        15 => "ヾ(⌐■_■)ノ♪",
        16 => "ヾ(☆▽☆)",
        17 => "(ﾉ>ω<)ﾉ",
        18 => "(◠‿◠✿)",
        _ => "(ﾉ^ヮ^)ﾉ*:・ﾟ✧",
    }
}

/// Goodbye number `i`.
pub fn goodbye_message(i: usize) -> (text: &'static str)
    requires
        i < 8,
    ensures
        text@ == goodbye_messages()[i as int],
{
    match i {
        0 => "✨ Mission accomplished! Time to shine!",
        1 => "🎯 All done! Maybe grab a cookie? 🍪",
        2 => "🌟 Great work! Your code is ready for takeoff!",
        3 => "💫 TreeClip adventure complete! See you next time~",
        4 => "🎉 Perfect! Everything extracted successfully!",
        5 => "✅ Nailed it! Your files are all bundled up!",
        6 => "🚀 Launch ready! Your code awaits!",
        _ => "🎊 Fantastic! Another tree successfully clipped!",
    }
}

/// One of the faces, picked at random.
pub fn get_random_kaomoji() -> (text: &'static str)
    ensures
        exists|i: int| 0 <= i < 20 && text@ == #[trigger] kaomojis()[i],
{
    let i = random_below(20);
    let text = kaomoji(i);
    assert(text@ == kaomojis()[i as int]);
    text
}

/// One of the goodbyes, picked at random.
pub fn get_random_goodbye() -> (text: &'static str)
    ensures
        exists|i: int| 0 <= i < 8 && text@ == #[trigger] goodbye_messages()[i],
{
    let i = random_below(8);
    let text = goodbye_message(i);
    assert(text@ == goodbye_messages()[i as int]);
    text
}

/// The number of banners.
pub const BANNER_COUNT: usize = 3;

/// The title of banner `i`.
pub open spec fn banner_title(i: int) -> Seq<char> {
    if i == 0 {
        "🌳  T R E E C L I P  🌳"@
    } else if i == 1 {
        "✨  T R E E C L I P  ✨"@
    } else {
        "🎄  T R E E C L I P  🎄"@
    }
}

/// The lines of banner `i`.
pub open spec fn banner_rows(i: int) -> Seq<RowView> {
    if i == 0 {
        seq![
            RowView::Message("Traverse & Extract with Style!"@),
            RowView::Message(""@),
            RowView::Message("(づ｡◕‿‿◕｡)づ  Let's gather some leaves!"@),
        ]
    } else if i == 1 {
        seq![
            RowView::Message("Your friendly code extraction companion!"@),
            RowView::Message(""@),
            RowView::Message("♡( ◡‿◡ )  Ready to explore your files~"@),
        ]
    } else {
        seq![
            RowView::Message("Fast • Simple • Cute"@),
            RowView::Message(""@),
            RowView::Message("ヾ(⌐■_■)ノ♪  Time to clip that tree!"@),
        ]
    }
}

/// The look of banner `i`.
pub open spec fn banner_theme(i: int) -> BoxTheme {
    BoxTheme {
        padding: 3,
        border: if i == 0 {
            BorderStyle::Double
        } else if i == 1 {
            BorderStyle::Rounded
        } else {
            BorderStyle::Sharp
        },
        align: Align::Center,
    }
}

/// The box of banner `i`, not yet drawn.
pub fn banner_box(i: usize) -> (b: FormattedBox)
    requires
        i < BANNER_COUNT,
    ensures
        b.title() == banner_title(i as int),
        b.rows() == banner_rows(i as int),
        b.look() == banner_theme(i as int),
{
    let b = if i == 0 {
        FormattedBox::new("🌳  T R E E C L I P  🌳").border_style(BorderStyle::Double).padding(
            3,
        ).align(Align::Center).message_line("Traverse & Extract with Style!").message_line(
            "",
        ).message_line("(づ｡◕‿‿◕｡)づ  Let's gather some leaves!")
    } else if i == 1 {
        FormattedBox::new("✨  T R E E C L I P  ✨").border_style(BorderStyle::Rounded).padding(
            3,
        ).align(Align::Center).message_line(
            "Your friendly code extraction companion!",
        ).message_line("").message_line("♡( ◡‿◡ )  Ready to explore your files~")
    } else {
        FormattedBox::new("🎄  T R E E C L I P  🎄").border_style(BorderStyle::Sharp).padding(
            3,
        ).align(Align::Center).message_line("Fast • Simple • Cute").message_line(
            "",
        ).message_line("ヾ(⌐■_■)ノ♪  Time to clip that tree!")
    };
    assert(b.rows() =~= banner_rows(i as int));
    b
}

/// Banner `i`, drawn; nothing if its lines do not fit its box.
pub open spec fn banner_text(i: int) -> Option<Seq<char>> {
    if box_fits(banner_title(i), banner_rows(i), banner_theme(i)) {
        Some(box_text(banner_title(i), banner_rows(i), banner_theme(i)))
    } else {
        None
    }
}

/// What is drawn, if anything, as a mathematical value.
pub open spec fn drawn(text: Option<String>) -> Option<Seq<char>> {
    match text {
        Some(t) => Some(t@),
        None => None,
    }
}

/// Banner `i`, drawn; `None` if its lines do not fit its box.
pub fn banner(i: usize) -> (text: Option<String>)
    requires
        i < BANNER_COUNT,
    ensures
        drawn(text) == banner_text(i as int),
{
    banner_box(i).try_render()
}

/// One of the banners, picked at random and drawn.
pub fn get_random_banner() -> (text: Option<String>)
    ensures
        exists|i: int| 0 <= i < BANNER_COUNT && drawn(text) == #[trigger] banner_text(i),
{
    let i = random_below(BANNER_COUNT);
    let text = banner(i);
    assert(drawn(text) == banner_text(i as int));
    text
}

} // verus!
