//! The floating overlay toolbar's state: the record toggle and the events it
//! announces, the timer text, the expand toggle and the quick actions.
use vstd::prelude::*;
use crate::text::{decimal, owned, u64_to_string};

verus! {

/// The toolbar's state (the microphone level meter is drawn by the interface).
pub struct OverlayState {
    pub recording: bool,
    pub elapsed_secs: u64,
    pub ai_thinking: bool,
    pub expanded: bool,
}

/// What a click on the record button announces.
#[derive(Debug, Clone, Copy, PartialEq, Eq, Structural)]
pub enum RecordToggle {
    /// A recording started.
    Started,
    /// The recording stopped after this many seconds.
    Stopped { duration_secs: u64 },
}

/// The quick actions of the expanded toolbar.
#[derive(Debug, Clone, Copy, PartialEq, Eq, Structural)]
pub enum QuickAction {
    Bookmark,
    Chapter,
    Share,
    Summarise,
}

impl QuickAction {
    /// The voice-command name the action is announced as.
    pub fn command(&self) -> (s: &'static str)
        ensures
            s@ == match *self {
                QuickAction::Bookmark => "bookmark"@,
                QuickAction::Chapter => "chapter"@,
                QuickAction::Share => "share"@,
                QuickAction::Summarise => "summarize"@,
            },
    {
        match self {
            QuickAction::Bookmark => "bookmark",
            QuickAction::Chapter => "chapter",
            QuickAction::Share => "share",
            QuickAction::Summarise => "summarize",
        }
    }
}

/// A number written with at least two digits (`{:02}`).
pub open spec fn two_digits(n: nat) -> Seq<char> {
    if n < 10 { "0"@ + decimal(n) } else { decimal(n) }
}

/// The timer text: minutes and seconds, each with at least two digits.
pub open spec fn spec_timer_text(elapsed_secs: nat) -> Seq<char> {
    two_digits(elapsed_secs / 60) + ":"@ + two_digits(elapsed_secs % 60)
}

fn padded(n: u64) -> (s: String)
    ensures
        s@ == two_digits(n as nat),
{
    let d = u64_to_string(n);
    if n < 10 {
        let mut s = owned("0");
        s.append(d.as_str());
        s
    } else {
        d
    }
}

impl OverlayState {
    /// Not recording, collapsed, idle.
    pub fn new() -> (s: Self)
        ensures
            !s.recording,
            s.elapsed_secs == 0,
            !s.ai_thinking,
            !s.expanded,
    {
        OverlayState { recording: false, elapsed_secs: 0, ai_thinking: false, expanded: false }
    }

    /// The record button's label.
    pub fn record_label(&self) -> (s: &'static str)
        ensures
            self.recording ==> s@ == "⏹  Stop"@,
            !self.recording ==> s@ == "⏺  Record"@,
    {
        if self.recording { "⏹  Stop" } else { "⏺  Record" }
    }

    /// A click on the record button: recording flips, and the start, or the stop
    /// with the elapsed time, is announced.
    pub fn toggle_recording(&mut self) -> (t: RecordToggle)
        ensures
            final(self).recording == !old(self).recording,
            final(self).elapsed_secs == old(self).elapsed_secs,
            final(self).expanded == old(self).expanded,
            final(self).ai_thinking == old(self).ai_thinking,
            final(self).recording ==> t == RecordToggle::Started,
            !final(self).recording ==> t == (RecordToggle::Stopped { duration_secs: old(self).elapsed_secs }),
    {
        self.recording = !self.recording;
        if self.recording {
            RecordToggle::Started
        } else {
            RecordToggle::Stopped { duration_secs: self.elapsed_secs }
        }
    }

    /// The timer text, shown while recording.
    pub fn timer_text(&self) -> (s: Option<String>)
        ensures
            self.recording ==> (s matches Some(t) && t@ == spec_timer_text(self.elapsed_secs as nat)),
            !self.recording ==> s is None,
    {
        if !self.recording {
            return None;
        }
        let mut t = padded(self.elapsed_secs / 60);
        t.append(":");
        let s = padded(self.elapsed_secs % 60);
        t.append(s.as_str());
        Some(t)
    }

    /// A click on the expand button.
    pub fn toggle_expanded(&mut self)
        ensures
            final(self).expanded == !old(self).expanded,
            final(self).recording == old(self).recording,
            final(self).elapsed_secs == old(self).elapsed_secs,
            final(self).ai_thinking == old(self).ai_thinking,
    {
        self.expanded = !self.expanded;
    }
}

} // verus!
