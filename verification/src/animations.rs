//! The frames of the spinners and the text of the progress counter.

use crate::formatter::Tint;
use crate::text::{decimal, push_decimal};
use vstd::prelude::*;
use vstd::string::StringExecFns;

verus! {

/// A spinner: the frames it shows in turn and the colours it cycles
/// through.
#[derive(Debug, Clone)]
pub struct Spinner {
    frames: Vec<&'static str>,
    colors: Vec<Tint>,
}

impl Spinner {
    /// The number of frames.
    pub closed spec fn frame_count(&self) -> nat {
        self.frames@.len()
    }

    /// The number of colours.
    pub closed spec fn color_count(&self) -> nat {
        self.colors@.len()
    }

    /// Frame number `i`.
    pub closed spec fn frame_text(&self, i: int) -> Seq<char> {
        self.frames@[i]@
    }

    /// Colour number `i`.
    pub closed spec fn color_at(&self, i: int) -> Tint {
        self.colors@[i]
    }

    /// A spinner has frames and colours to show.
    pub open spec fn wf(&self) -> bool {
        self.frame_count() > 0 && self.color_count() > 0
    }

    /// The spinner of a growing tree: six frames in greens and cyans.
    pub fn new_tree() -> (s: Spinner)
        ensures
            s.wf(),
            s.frame_count() == 6,
            s.color_count() == 4,
            s.frame_text(0) == "🌱"@,
            s.frame_text(5) == "🎄"@,
            s.color_at(0) == Tint::Green,
            s.color_at(1) == Tint::BrightGreen,
            s.color_at(2) == Tint::Cyan,
            s.color_at(3) == Tint::BrightCyan,
    {
        let mut frames: Vec<&'static str> = Vec::new();
        frames.push("🌱");
        frames.push("🌿");
        frames.push("🍃");
        frames.push("🌳");
        frames.push("🌲");
        frames.push("🎄");
        let mut colors: Vec<Tint> = Vec::new();
        colors.push(Tint::Green);
        colors.push(Tint::BrightGreen);
        colors.push(Tint::Cyan);
        colors.push(Tint::BrightCyan);
        Spinner { frames, colors }
    }

    /// The spinner of a load in progress: ten frames in cyans and blues.
    pub fn new_loading() -> (s: Spinner)
        ensures
            s.wf(),
            s.frame_count() == 10,
            s.color_count() == 4,
            s.frame_text(0) == "⠋"@,
            s.frame_text(9) == "⠏"@,
            s.color_at(0) == Tint::Cyan,
            s.color_at(1) == Tint::BrightCyan,
            s.color_at(2) == Tint::Blue,
            s.color_at(3) == Tint::BrightBlue,
    {
        let mut frames: Vec<&'static str> = Vec::new();
        frames.push("⠋");
        frames.push("⠙");
        frames.push("⠹");
        frames.push("⠸");
        frames.push("⠼");
        frames.push("⠴");
        frames.push("⠦");
        frames.push("⠧");
        frames.push("⠇");
        frames.push("⠏");
        let mut colors: Vec<Tint> = Vec::new();
        colors.push(Tint::Cyan);
        colors.push(Tint::BrightCyan);
        colors.push(Tint::Blue);
        colors.push(Tint::BrightBlue);
        Spinner { frames, colors }
    }

    /// The number of frames.
    pub fn len(&self) -> (n: usize)
        ensures
            n == self.frame_count(),
    {
        self.frames.len()
    }

    /// How long each frame is shown when the whole spin takes
    /// `duration_ms` milliseconds.
    pub fn frame_duration(&self, duration_ms: u64) -> (each: u64)
        requires
            self.wf(),
        ensures
            each == duration_ms / (self.frame_count() as u64),
    {
        duration_ms / (self.frames.len() as u64)
    }

    /// Frame number `i` and the colour in which it is shown: the colours
    /// are taken in turn and start over when they run out.
    pub fn frame(&self, i: usize) -> (r: (&'static str, Tint))
        requires
            self.wf(),
            i < self.frame_count(),
        ensures
            r.0@ == self.frame_text(i as int),
            r.1 == self.color_at(i as int % self.color_count() as int),
    {
        (self.frames[i], self.colors[i % self.colors.len()])
    }
}

/// The line that reports progress after `current` files.
pub open spec fn progress_text(emoji: Seq<char>, current: nat) -> Seq<char> {
    emoji + " Collected "@ + decimal(current) + " files so far..."@
}

/// The line that reports progress, every `interval` files: `None` when
/// `current` is no multiple of `interval`. The emoji is taken from
/// `emoji_set` in turn, one step per interval. There is nothing to report
/// without an emoji or with an interval of zero.
pub fn progress_counter(emoji_set: &[&str], current: usize, interval: usize) -> (r: Option<String>)
    ensures
        interval > 0 && emoji_set@.len() > 0 && current % interval == 0 ==> (r matches Some(text)
            && text@ == progress_text(
            emoji_set@[(current / interval) as int % emoji_set@.len() as int]@,
            current as nat,
        )),
        interval == 0 || emoji_set@.len() == 0 || current % interval != 0 ==> r is None,
{
    if interval == 0 || emoji_set.len() == 0 {
        return None;
    }
    if current % interval == 0 {
        let idx = (current / interval) % emoji_set.len();
        let mut out = emoji_set[idx].to_owned();
        out.append(" Collected ");
        push_decimal(&mut out, current as u128);
        out.append(" files so far...");
        Some(out)
    } else {
        None
    }
}

} // verus!
