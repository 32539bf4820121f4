//! The commands that the playback engine consumes.
use vstd::prelude::*;

use crate::song::Song;

verus! {

/// One command to the playback engine. Volumes and speeds are in
/// thousandths (1000 is unit volume, normal speed).
#[derive(Debug)]
pub enum PlayerMessage {
    Stop,
    Play,
    Pause,
    /// Logical positions to drop: 0 is the song playing, `i` the queue's item `i - 1`.
    Skip(Vec<usize>),
    Volume(u64),
    Add(Song),
    Clear,
    Speed(u64),
    /// Moves the queue item at the first position towards the second.
    ReOrder(usize, usize),
    /// Seeks this many seconds into the song playing.
    Seek(u64),
}

impl PlayerMessage {
    /// Skips the song playing.
    pub fn skip_first() -> (r: Self)
        ensures
            r is Skip && r->Skip_0@ == seq![0usize],
    {
        let v = vec![0usize];
        assert(v@ =~= seq![0usize]);
        PlayerMessage::Skip(v)
    }
}

/// What a listed song's buttons ask for.
#[derive(Clone, Copy, Debug, PartialEq, Eq, Structural)]
pub enum SelectorMessage {
    Queue,
    QueueFront,
    Play,
}

impl SelectorMessage {
    /// The commands that a button press on `song` sends: queueing appends
    /// it, playing stops everything and then appends it; queueing at the
    /// front does nothing yet.
    pub fn commands(self, song: Song) -> (r: Vec<PlayerMessage>)
        ensures
            match self {
                SelectorMessage::Queue => r@ == seq![PlayerMessage::Add(song)],
                SelectorMessage::Play => r@ == seq![PlayerMessage::Stop, PlayerMessage::Add(song)],
                SelectorMessage::QueueFront => r@.len() == 0,
            },
    {
        let mut r: Vec<PlayerMessage> = Vec::new();
        match self {
            SelectorMessage::Queue => {
                r.push(PlayerMessage::Add(song));
            },
            SelectorMessage::Play => {
                r.push(PlayerMessage::Stop);
                r.push(PlayerMessage::Add(song));
            },
            SelectorMessage::QueueFront => {},
        }
        r
    }
}

} // verus!
