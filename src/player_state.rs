//! The snapshot of playback that the engine publishes.
use vstd::prelude::*;

use crate::song::Song;
use crate::text::{decimal, push_char, push_decimal};

verus! {

/// What the engine shows of itself. Volume and speed are in thousandths,
/// durations in milliseconds.
#[derive(Debug)]
pub struct PlayerState {
    pub now_playing: Option<Song>,
    pub queue: Vec<Song>,
    pub volume: u64,
    pub speed: u64,
    pub paused: bool,
    pub total_duration: Option<u64>,
    pub elapsed_duration: Option<u64>,
}

/// A duration of `ms` milliseconds as minutes and two-digit seconds (`3:07`).
pub open spec fn clock_text(ms: nat) -> Seq<char> {
    let secs = ms / 1000;
    let s = secs % 60;
    decimal(secs / 60) + seq![':'] + (if s < 10 {
        seq!['0']
    } else {
        Seq::empty()
    }) + decimal(s)
}

/// Whether `text` shows `d` as `clock_text` does, and is absent with it.
pub open spec fn shows(text: Option<String>, d: Option<u64>) -> bool {
    match d {
        Some(ms) => text is Some && text->0@ == clock_text(ms as nat),
        None => text is None,
    }
}

impl PlayerState {
    /// The state before anything plays: empty queue, normal speed, not paused.
    pub fn new(default_volume: u64) -> (r: Self)
        ensures
            r.now_playing is None,
            r.queue@.len() == 0,
            r.volume == default_volume,
            r.speed == 1000,
            !r.paused,
            r.total_duration is None,
            r.elapsed_duration is None,
    {
        PlayerState {
            now_playing: None,
            queue: Vec::new(),
            volume: default_volume,
            speed: 1000,
            paused: false,
            total_duration: None,
            elapsed_duration: None,
        }
    }

    /// The length of the song playing, shown as minutes and seconds.
    pub fn show_total_duration(&self) -> (r: Option<String>)
        ensures
            shows(r, self.total_duration),
    {
        match self.total_duration {
            Some(d) => Some(Self::display_duration(d)),
            None => None,
        }
    }

    /// How far the song playing has got, shown as minutes and seconds.
    pub fn show_elapsed_duration(&self) -> (r: Option<String>)
        ensures
            shows(r, self.elapsed_duration),
    {
        match self.elapsed_duration {
            Some(d) => Some(Self::display_duration(d)),
            None => None,
        }
    }

    /// `ms` milliseconds as minutes and two-digit seconds.
    pub fn display_duration(ms: u64) -> (r: String)
        ensures
            r@ == clock_text(ms as nat),
    {
        let secs = ms / 1000;
        let mut out = String::new();
        push_decimal(&mut out, secs / 60);
        push_char(&mut out, ':');
        if secs % 60 < 10 {
            push_char(&mut out, '0');
        }
        push_decimal(&mut out, secs % 60);
        assert(out@ =~= clock_text(ms as nat));
        out
    }
}

} // verus!
