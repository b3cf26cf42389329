//! The lines in which a run reports its settings and the statistics of a
//! bundle. Text is styled for the terminal by the `colored` crate; whether
//! a styled text comes out with colour codes depends on the terminal and
//! the environment, so a contract here can fix what is plain and nothing
//! of what is styled.

use crate::text::{push_repeated, repeated};
use crate::utils::{format_bytes, format_number, formatted_number};
use colored::{ColoredString, Colorize};
use vstd::prelude::*;
use vstd::string::StringExecFns;

verus! {

/// A text together with the colour and style in which it is to be shown.
#[verifier::external_type_specification]
#[verifier::external_body]
pub struct ExColoredString(ColoredString);

/// The plain text that a styled text holds.
pub uninterp spec fn plain_text(s: ColoredString) -> Seq<char>;

/// The colours in use.
#[derive(Debug, Clone, Copy, PartialEq, Eq, Structural)]
pub enum Tint {
    Red,
    Green,
    Yellow,
    Blue,
    Cyan,
    BrightBlue,
    BrightWhite,
    BrightYellow,
    BrightGreen,
    BrightCyan,
}

/// `Colorize::color` gives a text a colour; the text itself stays as it is.
#[verifier::external_body]
fn tinted(text: &str, tint: Tint) -> (s: ColoredString)
    ensures
        plain_text(s) == text@,
{
    text.color(match tint {
        Tint::Red => colored::Color::Red,
        Tint::Green => colored::Color::Green,
        Tint::Yellow => colored::Color::Yellow,
        Tint::Blue => colored::Color::Blue,
        Tint::Cyan => colored::Color::Cyan,
        Tint::BrightBlue => colored::Color::BrightBlue,
        Tint::BrightWhite => colored::Color::BrightWhite,
        Tint::BrightYellow => colored::Color::BrightYellow,
        Tint::BrightGreen => colored::Color::BrightGreen,
        Tint::BrightCyan => colored::Color::BrightCyan,
    })
}

/// `Colorize::bold` makes a styled text bold; the text itself stays as it is.
#[verifier::external_body]
fn emboldened(s: ColoredString) -> (r: ColoredString)
    ensures
        plain_text(r) == plain_text(s),
{
    s.bold()
}

/// `Colorize::dimmed` makes a styled text dim; the text itself stays as it is.
#[verifier::external_body]
fn dimmed(s: ColoredString) -> (r: ColoredString)
    ensures
        plain_text(r) == plain_text(s),
{
    s.dimmed()
}

/// `ColoredString::from` takes a plain text without colour or style.
#[verifier::external_body]
fn unstyled(text: &str) -> (s: ColoredString)
    ensures
        plain_text(s) == text@,
{
    ColoredString::from(text)
}

/// The `Display` of a styled text: the text, wrapped in colour codes where
/// the terminal is to get them.
#[verifier::external_body]
fn shown(s: &ColoredString) -> (out: String) {
    format!("{}", s)
}

/// The `Display` of a styled text in a field of `width` characters, the
/// text to the left.
#[verifier::external_body]
fn shown_left(s: &ColoredString, width: usize) -> (out: String) {
    format!("{:<width$}", s, width = width)
}

/// The `Display` of a styled text in a field of `width` characters, the
/// text to the right.
#[verifier::external_body]
fn shown_right(s: &ColoredString, width: usize) -> (out: String) {
    format!("{:>width$}", s, width = width)
}

/// The width of the label column of a settings line.
pub const LABEL_WIDTH: usize = 18;

/// The width of the rule under a section header.
pub const BOX_WIDTH: usize = 55;

/// A section header: a blank line, the icon and the title, and a rule
/// under them.
pub open spec fn section_header_text(icon: Seq<char>, title: Seq<char>, rule: Seq<char>) -> Seq<
    char,
> {
    seq!['\n'] + icon + seq![' '] + title + seq!['\n'] + rule
}

/// A settings line: the icon, the label in its column, the value.
pub open spec fn config_line_text(icon: Seq<char>, label: Seq<char>, value: Seq<char>) -> Seq<
    char,
> {
    seq![' ', ' '] + icon + seq![' '] + label + seq![' '] + value
}

/// A list item: the icon, then the text.
pub open spec fn list_item_text(icon: Seq<char>, text: Seq<char>) -> Seq<char> {
    seq![' ', ' '] + icon + seq![' '] + text
}

/// The text of a yes or a no.
pub open spec fn bool_text(val: bool) -> Seq<char> {
    if val {
        "✓ Yes"@
    } else {
        "✗ No"@
    }
}

/// Puts a section header together from its parts as they are to be shown.
pub fn section_header(icon: &str, title: &str, rule: &str) -> (out: String)
    ensures
        out@ == section_header_text(icon@, title@, rule@),
{
    let mut out = String::new();
    out.push('\n');
    out.append(icon);
    out.push(' ');
    out.append(title);
    out.push('\n');
    out.append(rule);
    assert(out@ =~= section_header_text(icon@, title@, rule@));
    out
}

/// Puts a settings line together from its parts as they are to be shown.
pub fn config_line(icon: &str, label: &str, value: &str) -> (out: String)
    ensures
        out@ == config_line_text(icon@, label@, value@),
{
    let mut out = String::new();
    out.push(' ');
    out.push(' ');
    out.append(icon);
    out.push(' ');
    out.append(label);
    out.push(' ');
    out.append(value);
    assert(out@ =~= config_line_text(icon@, label@, value@));
    out
}

/// Puts a list item together from its parts as they are to be shown.
pub fn list_item(icon: &str, text: &str) -> (out: String)
    ensures
        out@ == list_item_text(icon@, text@),
{
    let mut out = String::new();
    out.push(' ');
    out.push(' ');
    out.append(icon);
    out.push(' ');
    out.append(text);
    assert(out@ =~= list_item_text(icon@, text@));
    out
}

/// Formats the lines in which a run reports its settings.
pub struct ConfigFormatter;

impl ConfigFormatter {
    /// A section header: the icon as it is, the title bold and bright
    /// blue over a bright blue rule.
    pub fn format_section_header(title: &str, icon: &str) -> (out: String)
        ensures
            exists|shown_title: Seq<char>, shown_rule: Seq<char>|
                out@ == section_header_text(icon@, shown_title, shown_rule),
    {
        let styled_title = emboldened(tinted(title, Tint::BrightBlue));
        let mut rule = String::new();
        push_repeated(&mut rule, '─', BOX_WIDTH);
        let styled_rule = tinted(rule.as_str(), Tint::BrightBlue);
        let shown_title = shown(&styled_title);
        let shown_rule = shown(&styled_rule);
        section_header(icon, shown_title.as_str(), shown_rule.as_str())
    }

    /// A settings line: the icon as it is, the label bright white in a
    /// column of its own, the value in the style it comes in.
    pub fn format_config_line(icon: &str, label: &str, value: ColoredString) -> (out: String)
        ensures
            exists|shown_label: Seq<char>, shown_value: Seq<char>|
                out@ == config_line_text(icon@, shown_label, shown_value),
    {
        let styled_label = tinted(label, Tint::BrightWhite);
        let shown_label = shown_left(&styled_label, LABEL_WIDTH);
        let shown_value = shown(&value);
        config_line(icon, shown_label.as_str(), shown_value.as_str())
    }

    /// A path to show: its absolute form, bold and cyan, where the file
    /// system resolved it (`resolved` is that form), the path as given, in
    /// yellow, where it did not.
    pub fn format_path(path: &str, resolved: Option<&str>) -> (s: ColoredString)
        ensures
            plain_text(s) == (match resolved {
                Some(absolute) => absolute@,
                None => path@,
            }),
    {
        match resolved {
            Some(absolute) => emboldened(tinted(absolute, Tint::Cyan)),
            None => tinted(path, Tint::Yellow),
        }
    }

    /// A yes, bold and green, or a no, dim and red.
    pub fn format_bool(val: bool) -> (s: ColoredString)
        ensures
            plain_text(s) == bool_text(val),
    {
        if val {
            emboldened(tinted("✓ Yes", Tint::Green))
        } else {
            dimmed(tinted("✗ No", Tint::Red))
        }
    }

    /// A list item, icon and text both dim.
    pub fn format_list_item(icon: &str, text: &str) -> (out: String)
        ensures
            exists|shown_icon: Seq<char>, shown_text: Seq<char>|
                out@ == list_item_text(shown_icon, shown_text),
    {
        let shown_icon = shown(&dimmed(unstyled(icon)));
        let shown_text = shown(&dimmed(unstyled(text)));
        list_item(shown_icon.as_str(), shown_text.as_str())
    }
}

/// The statistics of a bundle.
#[derive(Debug, Clone, Copy)]
pub struct StatsBox {
    lines: usize,
    chars: usize,
    words: usize,
    bytes: usize,
}

/// How large a bundle is, in four classes.
#[derive(Debug, Clone, Copy, PartialEq, Eq, Structural)]
pub enum SizeClass {
    /// Under one kibibyte.
    Tiny,
    /// Under a hundred kibibytes.
    Handy,
    /// Under one mebibyte.
    Big,
    /// One mebibyte and more.
    Huge,
}

/// The class of a bundle of `bytes` bytes.
pub open spec fn size_class(bytes: nat) -> SizeClass {
    if bytes <= 1023 {
        SizeClass::Tiny
    } else if bytes <= 102399 {
        SizeClass::Handy
    } else if bytes <= 1048575 {
        SizeClass::Big
    } else {
        SizeClass::Huge
    }
}

/// The animal that stands for a size class.
pub open spec fn size_emoji(class: SizeClass) -> Seq<char> {
    match class {
        SizeClass::Tiny => "🐣"@,
        SizeClass::Handy => "🐇"@,
        SizeClass::Big => "🐘"@,
        SizeClass::Huge => "🐋"@,
    }
}

/// The remark that goes with a size class.
pub open spec fn size_remark(class: SizeClass) -> Seq<char> {
    match class {
        SizeClass::Tiny => "Tiny but mighty!"@,
        SizeClass::Handy => "Perfect size! Easy to handle~"@,
        SizeClass::Big => "That's a big one! Impressive~"@,
        SizeClass::Huge => "Whoa! You've got a whale of content!"@,
    }
}

/// The colour of the remark that goes with a size class.
pub open spec fn size_tint(class: SizeClass) -> Tint {
    match class {
        SizeClass::Tiny => Tint::BrightYellow,
        SizeClass::Handy => Tint::BrightGreen,
        SizeClass::Big => Tint::BrightCyan,
        SizeClass::Huge => Tint::BrightBlue,
    }
}

/// The animal, the remark and the colour of the remark for a size class.
pub fn size_message(class: SizeClass) -> (r: (&'static str, &'static str, Tint))
    ensures
        r.0@ == size_emoji(class),
        r.1@ == size_remark(class),
        r.2 == size_tint(class),
{
    match class {
        SizeClass::Tiny => ("🐣", "Tiny but mighty!", Tint::BrightYellow),
        SizeClass::Handy => ("🐇", "Perfect size! Easy to handle~", Tint::BrightGreen),
        SizeClass::Big => ("🐘", "That's a big one! Impressive~", Tint::BrightCyan),
        SizeClass::Huge => ("🐋", "Whoa! You've got a whale of content!", Tint::BrightBlue),
    }
}

/// The box of statistics around four values as they are to be shown, each
/// in its field.
pub open spec fn stats_text(
    chars: Seq<char>,
    lines: Seq<char>,
    words: Seq<char>,
    size: Seq<char>,
) -> Seq<char> {
    seq!['┌'] + repeated('─', 49) + seq!['┐', '\n'] + "│           📊 Content Statistics                 │\n"@
        + seq!['├'] + repeated('─', 49) + seq!['┤', '\n'] + "│  📝 Characters:    "@ + chars
        + "  │\n"@ + "│  📄 Lines:         "@ + lines + "  │\n"@ + "│  💬 Words:         "@ + words
        + "  │\n"@ + "│  💾 Size:          "@ + size + "  │\n"@ + seq!['└'] + repeated('─', 49)
        + seq!['┘']
}

/// Puts the box of statistics together around four values as they are to
/// be shown.
pub fn stats_table(chars: &str, lines: &str, words: &str, size: &str) -> (out: String)
    ensures
        out@ == stats_text(chars@, lines@, words@, size@),
{
    let mut out = String::new();
    out.push('┌');
    push_repeated(&mut out, '─', 49);
    out.push('┐');
    out.push('\n');
    out.append("│           📊 Content Statistics                 │\n");
    out.push('├');
    push_repeated(&mut out, '─', 49);
    out.push('┤');
    out.push('\n');
    out.append("│  📝 Characters:    ");
    out.append(chars);
    out.append("  │\n");
    out.append("│  📄 Lines:         ");
    out.append(lines);
    out.append("  │\n");
    out.append("│  💬 Words:         ");
    out.append(words);
    out.append("  │\n");
    out.append("│  💾 Size:          ");
    out.append(size);
    out.append("  │\n");
    out.push('└');
    push_repeated(&mut out, '─', 49);
    out.push('┘');
    assert(out@ =~= stats_text(chars@, lines@, words@, size@));
    out
}

/// The text of a count in the box of statistics: the count with
/// thousands separators. A count beyond the largest signed number is
/// shown as that number.
pub open spec fn count_text(n: nat) -> Seq<char> {
    if n <= i64::MAX {
        formatted_number(n as int)
    } else {
        formatted_number(i64::MAX as int)
    }
}

/// A count as the box of statistics shows it: its text, bright white.
fn count_field(n: usize) -> (field: ColoredString)
    ensures
        plain_text(field) == count_text(n as nat),
{
    let shown: i64 = if n as u128 <= i64::MAX as u128 {
        n as i64
    } else {
        i64::MAX
    };
    let text = format_number(shown);
    tinted(text.as_str(), Tint::BrightWhite)
}

impl StatsBox {
    /// The number of lines.
    pub closed spec fn lines(&self) -> nat {
        self.lines as nat
    }

    /// The number of characters.
    pub closed spec fn chars(&self) -> nat {
        self.chars as nat
    }

    /// The number of words.
    pub closed spec fn words(&self) -> nat {
        self.words as nat
    }

    /// The number of bytes.
    pub closed spec fn bytes(&self) -> nat {
        self.bytes as nat
    }

    /// The statistics of a bundle of so many lines, characters, words and
    /// bytes.
    pub fn new(lines: usize, chars: usize, words: usize, bytes: usize) -> (s: StatsBox)
        ensures
            s.lines() == lines,
            s.chars() == chars,
            s.words() == words,
            s.bytes() == bytes,
    {
        StatsBox { lines, chars, words, bytes }
    }

    /// The class of the bundle's size.
    pub fn class(&self) -> (class: SizeClass)
        ensures
            class == size_class(self.bytes()),
    {
        if self.bytes <= 1023 {
            SizeClass::Tiny
        } else if self.bytes <= 102399 {
            SizeClass::Handy
        } else if self.bytes <= 1048575 {
            SizeClass::Big
        } else {
            SizeClass::Huge
        }
    }

    /// The box of statistics: characters, lines, words and size, each
    /// bright white and to the right of its field.
    pub fn render(&self) -> (out: String)
        ensures
            exists|chars: Seq<char>, lines: Seq<char>, words: Seq<char>, size: Seq<char>|
                out@ == stats_text(chars, lines, words, size),
    {
        let chars = shown_right(&count_field(self.chars), 25);
        let lines = shown_right(&count_field(self.lines), 25);
        let words = shown_right(&count_field(self.words), 25);
        let size_text = format_bytes(self.bytes);
        let size = shown_right(&tinted(size_text.as_str(), Tint::BrightWhite), 25);
        stats_table(chars.as_str(), lines.as_str(), words.as_str(), size.as_str())
    }

    /// An animal for the size of the bundle, and the remark that goes with
    /// it, in its colour.
    pub fn get_size_message(&self) -> (r: (String, String))
        ensures
            r.0@ == size_emoji(size_class(self.bytes())),
    {
        let (emoji, remark, tint) = size_message(self.class());
        (emoji.to_owned(), shown(&tinted(remark, tint)))
    }
}

} // verus!
