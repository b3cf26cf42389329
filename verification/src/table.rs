//! A box drawn with line characters around a title and rows, aligned by
//! the width at which text is displayed.

use crate::text::{push_repeated, repeated};
use unicode_width::UnicodeWidthStr;
use vstd::prelude::*;
use vstd::string::StringExecFns;

verus! {

/// The number of columns that a text takes when displayed, as
/// `UnicodeWidthStr::width` computes it.
pub uninterp spec fn display_width(s: Seq<char>) -> nat;

/// `UnicodeWidthStr::width` returns the displayed width of a string in
/// columns; [`display_width`] stands for it.
#[verifier::external_body]
fn width_of(s: &str) -> (w: usize)
    ensures
        w == display_width(s@),
{
    UnicodeWidthStr::width(s)
}

/// The characters of which a border is drawn.
#[derive(Debug, Clone, Copy, PartialEq, Eq, Structural)]
pub enum BorderStyle {
    /// Straight corners.
    Sharp,
    /// Rounded corners.
    Rounded,
    /// Double lines.
    Double,
}

/// How a line of a message box is placed between the borders.
#[derive(Debug, Clone, Copy, PartialEq, Eq, Structural)]
pub enum Align {
    /// Against the left border.
    Left,
    /// In the middle.
    Center,
}

/// How a box is drawn.
#[derive(Debug, Clone, Copy)]
pub struct BoxTheme {
    /// The number of blanks on either side of the widest line.
    pub padding: usize,
    /// The border characters.
    pub border: BorderStyle,
    /// The placement of the lines.
    pub align: Align,
}

impl Default for BoxTheme {
    fn default() -> (theme: BoxTheme)
        ensures
            theme.padding == 2,
            theme.border == BorderStyle::Sharp,
            theme.align == Align::Center,
    {
        BoxTheme { padding: 2, border: BorderStyle::Sharp, align: Align::Center }
    }
}

/// The characters of one border style.
pub struct BorderChars {
    pub top_left: char,
    pub top_right: char,
    pub bottom_left: char,
    pub bottom_right: char,
    pub h: char,
    pub v: char,
}

/// The characters of which `style` is drawn.
pub open spec fn border_of(style: BorderStyle) -> BorderChars {
    match style {
        BorderStyle::Sharp => BorderChars {
            top_left: '┌',
            top_right: '┐',
            bottom_left: '└',
            bottom_right: '┘',
            h: '─',
            v: '│',
        },
        BorderStyle::Rounded => BorderChars {
            top_left: '╭',
            top_right: '╮',
            bottom_left: '╰',
            bottom_right: '╯',
            h: '─',
            v: '│',
        },
        BorderStyle::Double => BorderChars {
            top_left: '╔',
            top_right: '╗',
            bottom_left: '╚',
            bottom_right: '╝',
            h: '═',
            v: '║',
        },
    }
}

/// Picks the characters of which `style` is drawn.
pub fn border_chars(style: BorderStyle) -> (chars: BorderChars)
    ensures
        chars == border_of(style),
{
    match style {
        BorderStyle::Sharp => BorderChars {
            top_left: '┌',
            top_right: '┐',
            bottom_left: '└',
            bottom_right: '┘',
            h: '─',
            v: '│',
        },
        BorderStyle::Rounded => BorderChars {
            top_left: '╭',
            top_right: '╮',
            bottom_left: '╰',
            bottom_right: '╯',
            h: '─',
            v: '│',
        },
        BorderStyle::Double => BorderChars {
            top_left: '╔',
            top_right: '╗',
            bottom_left: '╚',
            bottom_right: '╝',
            h: '═',
            v: '║',
        },
    }
}

/// One row of a box.
#[derive(Debug, Clone)]
pub enum RowKind {
    /// A label with its value.
    Stat { label: String, value: String },
    /// A line of text.
    Message(String),
}

/// A row as a mathematical value.
pub enum RowView {
    Stat { label: Seq<char>, value: Seq<char> },
    Message(Seq<char>),
}

impl View for RowKind {
    type V = RowView;

    open spec fn view(&self) -> RowView {
        match self {
            RowKind::Stat { label, value } => RowView::Stat { label: label@, value: value@ },
            RowKind::Message(line) => RowView::Message(line@),
        }
    }
}

/// A box in the making: a title, rows, and how to draw them.
#[derive(Debug, Clone)]
pub struct FormattedBox {
    title: String,
    rows: Vec<RowKind>,
    theme: BoxTheme,
}

/// The width between the borders of a box of statistics.
pub open spec fn stats_inner_width() -> nat {
    50
}

/// The width of the label column of a box of statistics.
pub open spec fn label_width() -> nat {
    18
}

/// The width of the value column of a box of statistics.
pub open spec fn value_width() -> nat {
    26
}

/// `n - m`, or zero where that would be negative.
pub open spec fn minus(n: nat, m: nat) -> nat {
    if n >= m {
        (n - m) as nat
    } else {
        0
    }
}

/// `s` followed by blanks up to the displayed width `width`.
pub open spec fn padded_left(s: Seq<char>, width: nat) -> Seq<char> {
    s + repeated(' ', minus(width, display_width(s)))
}

/// `s` preceded by blanks up to the displayed width `width`.
pub open spec fn padded_right(s: Seq<char>, width: nat) -> Seq<char> {
    repeated(' ', minus(width, display_width(s))) + s
}

/// `s` placed in a field of `width` columns.
pub open spec fn aligned(s: Seq<char>, width: nat, align: Align) -> Seq<char> {
    let free = minus(width, display_width(s));
    match align {
        Align::Left => s + repeated(' ', free),
        Align::Center => repeated(' ', free / 2) + s + repeated(' ', (free - free / 2) as nat),
    }
}

/// The line of a box of statistics that shows one row; nothing for a row
/// that is a message.
pub open spec fn stat_line(row: RowView) -> Seq<char> {
    match row {
        RowView::Stat { label, value } => seq!['│', ' ', ' '] + padded_left(label, label_width())
            + seq![' ', ' '] + padded_right(value, value_width()) + seq![' ', ' ', '│', '\n'],
        RowView::Message(_) => Seq::empty(),
    }
}

/// The lines of a box of statistics that show the rows.
pub open spec fn stat_lines(rows: Seq<RowView>) -> Seq<char>
    decreases rows.len(),
{
    if rows.len() == 0 {
        Seq::empty()
    } else {
        stat_lines(rows.drop_last()) + stat_line(rows.last())
    }
}

/// A box of statistics: the title centred over two columns, labels to the
/// left and values to the right.
pub open spec fn stats_box(title: Seq<char>, rows: Seq<RowView>) -> Seq<char> {
    let free = minus(stats_inner_width() + 1, display_width(title));
    let left = free / 2;
    let right = minus(free, left + 1);
    seq!['┌'] + repeated('─', stats_inner_width()) + seq!['┐', '\n'] + seq!['│'] + repeated(
        ' ',
        left,
    ) + title + repeated(' ', right) + seq!['│', '\n'] + seq!['├'] + repeated(
        '─',
        stats_inner_width(),
    ) + seq!['┤', '\n'] + stat_lines(rows) + seq!['└'] + repeated('─', stats_inner_width())
        + seq!['┘']
}

/// A line of a message box as it is measured and placed: the padding, then
/// the text.
pub open spec fn indented(pad: nat, line: Seq<char>) -> Seq<char> {
    repeated(' ', pad) + line
}

/// The displayed width of the widest of the title and the message rows.
pub open spec fn widest(title: Seq<char>, rows: Seq<RowView>) -> nat
    decreases rows.len(),
{
    if rows.len() == 0 {
        display_width(title)
    } else {
        let before = widest(title, rows.drop_last());
        match rows.last() {
            RowView::Message(line) => if display_width(line) > before {
                display_width(line)
            } else {
                before
            },
            RowView::Stat { .. } => before,
        }
    }
}

/// One line of a message box between its borders.
pub open spec fn boxed_line(line: Seq<char>, theme: BoxTheme, inner: nat) -> Seq<char> {
    seq![border_of(theme.border).v] + aligned(
        indented(theme.padding as nat, line),
        inner,
        theme.align,
    ) + seq![border_of(theme.border).v, '\n']
}

/// The line of a message box that shows one row; nothing for a row that is
/// a label with a value.
pub open spec fn message_line_text(row: RowView, theme: BoxTheme, inner: nat) -> Seq<char> {
    match row {
        RowView::Message(line) => boxed_line(line, theme, inner),
        RowView::Stat { .. } => Seq::empty(),
    }
}

/// The lines of a message box that show the rows.
pub open spec fn message_lines(rows: Seq<RowView>, theme: BoxTheme, inner: nat) -> Seq<char>
    decreases rows.len(),
{
    if rows.len() == 0 {
        Seq::empty()
    } else {
        message_lines(rows.drop_last(), theme, inner) + message_line_text(
            rows.last(),
            theme,
            inner,
        )
    }
}

/// A message box: the title and each message between borders as wide as
/// the widest of them and the padding on both sides.
pub open spec fn message_box(title: Seq<char>, rows: Seq<RowView>, theme: BoxTheme) -> Seq<char> {
    let border = border_of(theme.border);
    let inner = widest(title, rows) + 2 * theme.padding;
    seq![border.top_left] + repeated(border.h, inner as nat) + seq![border.top_right, '\n']
        + boxed_line(title, theme, inner as nat) + message_lines(rows, theme, inner as nat)
        + seq![border.bottom_left] + repeated(border.h, inner as nat) + seq![border.bottom_right]
}

/// Whether one of the rows is a label with a value.
pub open spec fn has_stats(rows: Seq<RowView>) -> bool {
    exists|i: int| 0 <= i < rows.len() && #[trigger] rows[i] is Stat
}

/// Whether every message row, indented, fits between the borders.
pub open spec fn messages_fit(rows: Seq<RowView>, pad: nat, inner: nat) -> bool {
    forall|i: int|
        0 <= i < rows.len() ==> (#[trigger] rows[i] matches RowView::Message(line)
            ==> display_width(indented(pad, line)) <= inner)
}

/// What a box looks like when drawn: a box of statistics if it has a row
/// with a label and a value, a message box otherwise.
pub open spec fn box_text(title: Seq<char>, rows: Seq<RowView>, theme: BoxTheme) -> Seq<char> {
    if has_stats(rows) {
        stats_box(title, rows)
    } else {
        message_box(title, rows, theme)
    }
}

/// Whether a box can be drawn: in a box of statistics the title must leave
/// room between the borders; in a message box the width between the
/// borders must be a number the machine can hold, and the title and each
/// message, indented, must fit in it.
pub open spec fn box_fits(title: Seq<char>, rows: Seq<RowView>, theme: BoxTheme) -> bool {
    if has_stats(rows) {
        display_width(title) <= stats_inner_width()
    } else {
        let pad = theme.padding as nat;
        let inner = widest(title, rows) + 2 * pad;
        &&& inner <= usize::MAX
        &&& display_width(indented(pad, title)) <= inner
        &&& messages_fit(rows, pad, inner)
    }
}

/// `s` followed by blanks up to the displayed width `width`.
fn pad_left(out: &mut String, s: &str, width: usize)
    ensures
        final(out)@ == old(out)@ + padded_left(s@, width as nat),
{
    let w = width_of(s);
    out.append(s);
    push_repeated(out, ' ', if width >= w { width - w } else { 0 });
    assert(out@ =~= old(out)@ + padded_left(s@, width as nat));
}

/// `s` preceded by blanks up to the displayed width `width`.
fn pad_right(out: &mut String, s: &str, width: usize)
    ensures
        final(out)@ == old(out)@ + padded_right(s@, width as nat),
{
    let w = width_of(s);
    push_repeated(out, ' ', if width >= w { width - w } else { 0 });
    out.append(s);
    assert(out@ =~= old(out)@ + padded_right(s@, width as nat));
}

/// `s` placed in a field of `width` columns.
fn align_text(out: &mut String, s: &str, width: usize, align: Align)
    ensures
        final(out)@ == old(out)@ + aligned(s@, width as nat, align),
{
    let w = width_of(s);
    let free: usize = if width >= w { width - w } else { 0 };
    match align {
        Align::Left => {
            out.append(s);
            push_repeated(out, ' ', free);
        },
        Align::Center => {
            let left: usize = free / 2;
            push_repeated(out, ' ', left);
            out.append(s);
            push_repeated(out, ' ', free - left);
        },
    }
    assert(out@ =~= old(out)@ + aligned(s@, width as nat, align));
}

impl View for FormattedBox {
    type V = (Seq<char>, Seq<RowView>, BoxTheme);

    closed spec fn view(&self) -> (Seq<char>, Seq<RowView>, BoxTheme) {
        (self.title@, self.rows.deep_view(), self.theme)
    }
}

impl DeepView for RowKind {
    type V = RowView;

    open spec fn deep_view(&self) -> RowView {
        self@
    }
}

impl FormattedBox {
    /// The title of the box.
    pub open spec fn title(&self) -> Seq<char> {
        self@.0
    }

    /// The rows of the box, in order.
    pub open spec fn rows(&self) -> Seq<RowView> {
        self@.1
    }

    /// How the box is drawn.
    pub open spec fn look(&self) -> BoxTheme {
        self@.2
    }

    /// What the box looks like when drawn.
    pub open spec fn rendered(&self) -> Seq<char> {
        box_text(self.title(), self.rows(), self.look())
    }

    /// Whether the box can be drawn.
    pub open spec fn renderable(&self) -> bool {
        box_fits(self.title(), self.rows(), self.look())
    }

    /// A box with a title, no rows, and the default look.
    pub fn new(title: &str) -> (b: FormattedBox)
        ensures
            b.title() == title@,
            b.rows().len() == 0,
            b.look().padding == 2,
            b.look().border == BorderStyle::Sharp,
            b.look().align == Align::Center,
    {
        FormattedBox { title: title.to_owned(), rows: Vec::new(), theme: BoxTheme::default() }
    }

    /// Adds a row with a label and a value.
    pub fn row(self, label: &str, value: &str) -> (b: FormattedBox)
        ensures
            b.title() == self.title(),
            b.look() == self.look(),
            b.rows() == self.rows().push(RowView::Stat { label: label@, value: value@ }),
    {
        let mut b = self;
        let ghost before = b.rows.deep_view();
        b.rows.push(RowKind::Stat { label: label.to_owned(), value: value.to_owned() });
        assert(b.rows.deep_view() =~= before.push(
            RowView::Stat { label: label@, value: value@ },
        ));
        b
    }

    /// Adds a row with a line of text.
    pub fn message_line(self, line: &str) -> (b: FormattedBox)
        ensures
            b.title() == self.title(),
            b.look() == self.look(),
            b.rows() == self.rows().push(RowView::Message(line@)),
    {
        let mut b = self;
        let ghost before = b.rows.deep_view();
        b.rows.push(RowKind::Message(line.to_owned()));
        assert(b.rows.deep_view() =~= before.push(RowView::Message(line@)));
        b
    }

    /// Sets the look of the box.
    pub fn theme(self, theme: BoxTheme) -> (b: FormattedBox)
        ensures
            b.title() == self.title(),
            b.rows() == self.rows(),
            b.look() == theme,
    {
        let mut b = self;
        b.theme = theme;
        b
    }

    /// Sets the border characters.
    pub fn border_style(self, style: BorderStyle) -> (b: FormattedBox)
        ensures
            b.title() == self.title(),
            b.rows() == self.rows(),
            b.look() == (BoxTheme { border: style, ..self.look() }),
    {
        let mut b = self;
        b.theme.border = style;
        b
    }

    /// Sets the number of blanks on either side of the widest line.
    pub fn padding(self, pad: usize) -> (b: FormattedBox)
        ensures
            b.title() == self.title(),
            b.rows() == self.rows(),
            b.look() == (BoxTheme { padding: pad, ..self.look() }),
    {
        let mut b = self;
        b.theme.padding = pad;
        b
    }

    /// Sets the placement of the lines.
    pub fn align(self, align: Align) -> (b: FormattedBox)
        ensures
            b.title() == self.title(),
            b.rows() == self.rows(),
            b.look() == (BoxTheme { align, ..self.look() }),
    {
        let mut b = self;
        b.theme.align = align;
        b
    }

    /// Tells whether one of the rows is a label with a value.
    fn is_stats(&self) -> (b: bool)
        ensures
            b == has_stats(self.rows()),
    {
        let mut i: usize = 0;
        while i < self.rows.len()
            invariant
                i <= self.rows@.len(),
                forall|k: int| 0 <= k < i ==> !(#[trigger] self.rows.deep_view()[k] is Stat),
            decreases self.rows@.len() - i,
        {
            match &self.rows[i] {
                RowKind::Stat { .. } => {
                    assert(self.rows.deep_view()[i as int] is Stat);
                    return true;
                },
                RowKind::Message(_) => {
                    assert(!(self.rows.deep_view()[i as int] is Stat));
                },
            }
            i += 1;
        }
        false
    }

    /// The displayed width of the widest of the title and the messages.
    fn max_width(&self) -> (w: usize)
        ensures
            w == widest(self.title(), self.rows()),
    {
        let mut w = width_of(self.title.as_str());
        let mut i: usize = 0;
        let ghost rows = self.rows.deep_view();
        assert(rows.take(0) =~= Seq::<RowView>::empty());
        while i < self.rows.len()
            invariant
                i <= self.rows@.len(),
                rows == self.rows.deep_view(),
                w == widest(self.title@, rows.take(i as int)),
            decreases self.rows@.len() - i,
        {
            proof {
                assert(rows.take(i + 1).drop_last() =~= rows.take(i as int));
                assert(rows.take(i + 1).last() == self.rows@[i as int]@);
            }
            match &self.rows[i] {
                RowKind::Message(line) => {
                    let lw = width_of(line.as_str());
                    if lw > w {
                        w = lw;
                    }
                },
                RowKind::Stat { .. } => {},
            }
            i += 1;
        }
        assert(rows.take(i as int) =~= rows);
        w
    }

    /// Tells whether the box can be drawn.
    pub fn can_render(&self) -> (b: bool)
        ensures
            b == self.renderable(),
    {
        if self.is_stats() {
            return width_of(self.title.as_str()) <= 50;
        }
        let pad = self.theme.padding;
        let max_width = self.max_width();
        if pad > usize::MAX / 2 || max_width > usize::MAX - 2 * pad {
            return false;
        }
        let inner: usize = max_width + 2 * pad;
        let mut line = String::new();
        push_repeated(&mut line, ' ', pad);
        line.append(self.title.as_str());
        assert(line@ =~= indented(pad as nat, self.title@));
        if width_of(line.as_str()) > inner {
            return false;
        }
        let mut i: usize = 0;
        while i < self.rows.len()
            invariant
                i <= self.rows@.len(),
                pad == self.theme.padding,
                !has_stats(self.rows()),
                inner == widest(self.title(), self.rows()) + 2 * pad,
                display_width(indented(pad as nat, self.title())) <= inner,
                forall|k: int|
                    0 <= k < i ==> (#[trigger] self.rows.deep_view()[k] matches RowView::Message(
                        text,
                    ) ==> display_width(indented(pad as nat, text)) <= inner),
            decreases self.rows@.len() - i,
        {
            match &self.rows[i] {
                RowKind::Message(text) => {
                    let mut line = String::new();
                    push_repeated(&mut line, ' ', pad);
                    line.append(text.as_str());
                    assert(line@ =~= indented(pad as nat, text@));
                    assert(self.rows.deep_view()[i as int] == RowView::Message(text@));
                    if width_of(line.as_str()) > inner {
                        return false;
                    }
                },
                RowKind::Stat { .. } => {
                    assert(self.rows.deep_view()[i as int] is Stat);
                },
            }
            i += 1;
        }
        true
    }

    /// Draws the box.
    pub fn render(&self) -> (out: String)
        requires
            self.renderable(),
        ensures
            out@ == self.rendered(),
    {
        if self.is_stats() {
            self.render_stats_box()
        } else {
            self.render_message_box()
        }
    }

    /// Draws the box if it can be drawn.
    pub fn try_render(&self) -> (out: Option<String>)
        ensures
            self.renderable() ==> (out matches Some(text) && text@ == self.rendered()),
            !self.renderable() ==> out is None,
    {
        if self.can_render() {
            Some(self.render())
        } else {
            None
        }
    }

    /// Draws the box as a box of statistics.
    fn render_stats_box(&self) -> (out: String)
        requires
            display_width(self.title()) <= stats_inner_width(),
        ensures
            out@ == stats_box(self.title(), self.rows()),
    {
        let mut out = String::new();
        out.push('┌');
        push_repeated(&mut out, '─', 50);
        out.push('┐');
        out.push('\n');
        let title_width = width_of(self.title.as_str());
        let total_width: usize = 51;
        let padding: usize = (total_width - title_width) / 2;
        out.push('│');
        push_repeated(&mut out, ' ', padding);
        out.append(self.title.as_str());
        push_repeated(&mut out, ' ', total_width - padding - title_width - 1);
        out.push('│');
        out.push('\n');
        out.push('├');
        push_repeated(&mut out, '─', 50);
        out.push('┤');
        out.push('\n');
        let ghost head = out@;
        let ghost rows = self.rows.deep_view();
        let mut i: usize = 0;
        assert(rows.take(0) =~= Seq::<RowView>::empty());
        assert(head + Seq::<char>::empty() =~= head);
        while i < self.rows.len()
            invariant
                i <= self.rows@.len(),
                rows == self.rows.deep_view(),
                out@ == head + stat_lines(rows.take(i as int)),
            decreases self.rows@.len() - i,
        {
            proof {
                assert(rows.take(i + 1).drop_last() =~= rows.take(i as int));
                assert(rows.take(i + 1).last() == self.rows@[i as int]@);
            }
            let ghost before = out@;
            match &self.rows[i] {
                RowKind::Stat { label, value } => {
                    out.push('│');
                    out.push(' ');
                    out.push(' ');
                    pad_left(&mut out, label.as_str(), 18);
                    out.push(' ');
                    out.push(' ');
                    pad_right(&mut out, value.as_str(), 26);
                    out.push(' ');
                    out.push(' ');
                    out.push('│');
                    out.push('\n');
                    assert(out@ =~= before + stat_line(self.rows@[i as int]@));
                },
                RowKind::Message(_) => {
                    assert(out@ =~= before + stat_line(self.rows@[i as int]@));
                },
            }
            assert(head + stat_lines(rows.take(i as int)) + stat_line(self.rows@[i as int]@)
                =~= head + (stat_lines(rows.take(i as int)) + stat_line(self.rows@[i as int]@)));
            i += 1;
        }
        assert(rows.take(i as int) =~= rows);
        out.push('└');
        push_repeated(&mut out, '─', 50);
        out.push('┘');
        assert(out@ =~= stats_box(self.title(), self.rows()));
        out
    }

    /// Draws the box as a message box.
    fn render_message_box(&self) -> (out: String)
        requires
            widest(self.title(), self.rows()) + 2 * self.look().padding <= usize::MAX,
        ensures
            out@ == message_box(self.title(), self.rows(), self.look()),
    {
        let border = border_chars(self.theme.border);
        let pad = self.theme.padding;
        let max_width = self.max_width();
        let inner_width: usize = max_width + pad * 2;
        let mut out = String::new();
        out.push(border.top_left);
        push_repeated(&mut out, border.h, inner_width);
        out.push(border.top_right);
        out.push('\n');
        self.push_boxed_line(&mut out, self.title.as_str(), inner_width);
        let ghost head = out@;
        let ghost rows = self.rows.deep_view();
        let ghost theme = self.theme;
        let mut i: usize = 0;
        assert(rows.take(0) =~= Seq::<RowView>::empty());
        assert(head + Seq::<char>::empty() =~= head);
        while i < self.rows.len()
            invariant
                i <= self.rows@.len(),
                rows == self.rows.deep_view(),
                theme == self.theme,
                out@ == head + message_lines(rows.take(i as int), theme, inner_width as nat),
            decreases self.rows@.len() - i,
        {
            proof {
                assert(rows.take(i + 1).drop_last() =~= rows.take(i as int));
                assert(rows.take(i + 1).last() == self.rows@[i as int]@);
            }
            let ghost before = out@;
            let ghost this = message_line_text(self.rows@[i as int]@, theme, inner_width as nat);
            match &self.rows[i] {
                RowKind::Message(line) => {
                    self.push_boxed_line(&mut out, line.as_str(), inner_width);
                    assert(out@ =~= before + this);
                },
                RowKind::Stat { .. } => {
                    assert(out@ =~= before + this);
                },
            }
            assert(head + message_lines(rows.take(i as int), theme, inner_width as nat) + this
                =~= head + (message_lines(rows.take(i as int), theme, inner_width as nat)
                + this));
            i += 1;
        }
        assert(rows.take(i as int) =~= rows);
        out.push(border.bottom_left);
        push_repeated(&mut out, border.h, inner_width);
        out.push(border.bottom_right);
        assert(out@ =~= message_box(self.title(), self.rows(), self.look()));
        out
    }

    /// Appends one line of a message box.
    fn push_boxed_line(&self, out: &mut String, line: &str, inner: usize)
        ensures
            final(out)@ == old(out)@ + boxed_line(line@, self.look(), inner as nat),
    {
        let border = border_chars(self.theme.border);
        let mut content = String::new();
        push_repeated(&mut content, ' ', self.theme.padding);
        content.append(line);
        assert(content@ =~= indented(self.theme.padding as nat, line@));
        out.push(border.v);
        align_text(out, content.as_str(), inner, self.theme.align);
        out.push(border.v);
        out.push('\n');
        assert(out@ =~= old(out)@ + boxed_line(line@, self.look(), inner as nat));
    }
}

} // verus!
