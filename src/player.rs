//! The playback engine: the queue, the transport and the timing, driven one
//! tick and one command at a time. The device itself is outside; the engine
//! says what to do with it.
use vstd::prelude::*;

use crate::commands::PlayerMessage;
use crate::player_state::PlayerState;
use crate::song::Song;

verus! {

/// What the engine asks of the output device.
#[derive(Debug)]
pub enum DeviceAction {
    Stop,
    Play,
    Pause,
    SetVolume(u64),
    SetSpeed(u64),
    /// Opens the song's source, skipping its first seconds, and appends it.
    Open(Song, u64),
}

/// The logical positions that a skip list names.
pub open spec fn index_set(list: Seq<usize>) -> Set<int> {
    Set::new(|x: int| exists|k: int| 0 <= k < list.len() && list[k] as int == x)
}

/// The queue left once the logical positions in `s` are dropped; the queue's
/// item `j` stands at logical position `j + 1`.
pub open spec fn unskipped(q: Seq<Song>, s: Set<int>) -> Seq<Song>
    decreases q.len(),
{
    if q.len() == 0 {
        q
    } else {
        let p = unskipped(q.drop_last(), s);
        if s.contains(q.len() as int) {
            p
        } else {
            p.push(q.last())
        }
    }
}

/// The logical positions of a queue of `n` items that `s` names.
pub open spec fn named_in_queue(s: Set<int>, n: int) -> Set<int> {
    Set::new(|x: int| 1 <= x <= n && s.contains(x))
}

/// Where a moved item lands: one less when moved forwards, to make up for
/// its own removal, and no further than the end of the shortened queue.
pub open spec fn reorder_target(len_after: int, from: int, to: int) -> int {
    let t = if to >= from {
        if to > 0 {
            to - 1
        } else {
            0
        }
    } else {
        to
    };
    if t > len_after {
        len_after
    } else {
        t
    }
}

/// The queue with its item at `from` moved towards `to`; unchanged when
/// there is no item at `from`.
pub open spec fn reordered(q: Seq<Song>, from: int, to: int) -> Seq<Song> {
    if 0 <= from < q.len() {
        q.remove(from).insert(reorder_target(q.len() - 1, from, to), q[from])
    } else {
        q
    }
}

/// Wall-clock milliseconds from `reference` to `now`; none if `now` is earlier.
pub open spec fn since(reference: u64, now: u64) -> nat {
    if now >= reference {
        (now - reference) as nat
    } else {
        0
    }
}

/// `x`, or the largest `u64` where it does not fit.
pub open spec fn clamp(x: nat) -> u64 {
    if x > u64::MAX {
        u64::MAX
    } else {
        x as u64
    }
}

/// The engine: its published state and the timing reference. While playing,
/// the position is `base` plus the wall time since `reference` scaled by the
/// speed; while paused it is `base`.
#[derive(Debug)]
pub struct Engine {
    pub state: PlayerState,
    pub base: u64,
    pub reference: u64,
}

/// Whether `a` and `b` agree on volume, speed, pause and timing.
pub open spec fn same_transport(a: &Engine, b: &Engine) -> bool {
    &&& a.state.volume == b.state.volume
    &&& a.state.speed == b.state.speed
    &&& a.state.paused == b.state.paused
    &&& a.base == b.base
    &&& a.reference == b.reference
}

/// Whether `a` and `b` agree on the song playing and its durations.
pub open spec fn same_song(a: &Engine, b: &Engine) -> bool {
    &&& a.state.now_playing == b.state.now_playing
    &&& a.state.total_duration == b.state.total_duration
    &&& a.state.elapsed_duration == b.state.elapsed_duration
}

/// Whether `b` is `a` rebased at `now`: the position reached becomes the base.
pub open spec fn rebased(a: &Engine, b: &Engine, now: u64) -> bool {
    b.base == clamp(a.position(now)) && b.reference == now
}

impl Engine {
    /// Durations are known only while a song is loaded.
    pub open spec fn wf(&self) -> bool {
        self.state.now_playing is None ==> self.state.total_duration is None
            && self.state.elapsed_duration is None
    }

    /// The position in the song, in milliseconds, at wall time `now`.
    pub open spec fn position(&self, now: u64) -> nat {
        if self.state.paused {
            self.base as nat
        } else {
            self.base as nat + since(self.reference, now) * self.state.speed as nat / 1000
        }
    }

    /// An idle engine with an empty queue at the given volume.
    pub fn new(default_volume: u64) -> (r: Engine)
        ensures
            r.wf(),
            r.state.now_playing is None,
            r.state.queue@.len() == 0,
            r.state.volume == default_volume,
            r.state.speed == 1000,
            !r.state.paused,
            r.base == 0,
            r.reference == 0,
    {
        Engine { state: PlayerState::new(default_volume), base: 0, reference: 0 }
    }

    /// The position at `now`, as far as it fits.
    pub fn current_position(&self, now: u64) -> (r: u64)
        ensures
            r == clamp(self.position(now)),
    {
        if self.state.paused {
            self.base
        } else {
            let d = now.saturating_sub(self.reference);
            let speed = self.state.speed;
            assert(d as nat == since(self.reference, now));
            assert(d as u128 * speed as u128 <= u64::MAX as u128 * u64::MAX as u128) by (nonlinear_arith)
                requires
                    d <= u64::MAX,
                    speed <= u64::MAX,
            ;
            let p: u128 = self.base as u128 + (d as u128 * speed as u128) / 1000;
            if p > u64::MAX as u128 {
                u64::MAX
            } else {
                p as u64
            }
        }
    }

    /// First half of a tick. An idle device with songs queued takes the
    /// front song, which the caller then tries to open; an idle device with
    /// nothing queued leaves nothing loaded.
    pub fn next_song(&mut self, device_idle: bool) -> (r: Option<Song>)
        requires
            old(self).wf(),
        ensures
            final(self).wf(),
            same_transport(old(self), final(self)),
            device_idle && old(self).state.queue@.len() > 0 ==> {
                &&& r == Some(old(self).state.queue@[0])
                &&& final(self).state.queue@ == old(self).state.queue@.drop_first()
                &&& same_song(old(self), final(self))
            },
            device_idle && old(self).state.queue@.len() == 0 ==> {
                &&& r is None
                &&& final(self).state.queue@ == old(self).state.queue@
                &&& final(self).state.now_playing is None
            },
            !device_idle ==> r is None && final(self).state.queue@ == old(self).state.queue@
                && same_song(old(self), final(self)),
    {
        if device_idle {
            if self.state.queue.len() > 0 {
                let song = self.state.queue.remove(0);
                return Some(song);
            } else {
                self.state.now_playing = None;
                self.state.total_duration = None;
                self.state.elapsed_duration = None;
            }
        }
        None
    }

    /// The song handed out by `next_song` opened: it plays from its start.
    pub fn song_started(&mut self, song: Song, total: Option<u64>, now: u64)
        ensures
            final(self).wf(),
            final(self).state.now_playing == Some(song),
            final(self).state.total_duration == total,
            final(self).state.elapsed_duration == Some(0u64),
            final(self).base == 0,
            final(self).reference == now,
            final(self).state.queue@ == old(self).state.queue@,
            final(self).state.volume == old(self).state.volume,
            final(self).state.speed == old(self).state.speed,
            final(self).state.paused == old(self).state.paused,
    {
        self.state.now_playing = Some(song);
        self.state.total_duration = total;
        self.state.elapsed_duration = Some(0);
        self.base = 0;
        self.reference = now;
    }

    /// Second half of a tick: while a song plays, the elapsed time follows
    /// the position.
    pub fn advance(&mut self, now: u64)
        requires
            old(self).wf(),
        ensures
            final(self).wf(),
            same_transport(old(self), final(self)),
            final(self).state.queue@ == old(self).state.queue@,
            final(self).state.now_playing == old(self).state.now_playing,
            final(self).state.total_duration == old(self).state.total_duration,
            final(self).state.elapsed_duration == if old(self).state.now_playing is Some
                && !old(self).state.paused {
                Some(clamp(old(self).position(now)))
            } else {
                old(self).state.elapsed_duration
            },
    {
        if self.state.now_playing.is_some() && !self.state.paused {
            let p = self.current_position(now);
            self.state.elapsed_duration = Some(p);
        }
    }
}

/// Whether `x` is among the positions of `list`.
fn listed(list: &Vec<usize>, x: usize) -> (r: bool)
    ensures
        r == index_set(list@).contains(x as int),
{
    let mut i: usize = 0;
    while i < list.len()
        invariant
            i <= list.len(),
            forall|k: int| 0 <= k < i ==> list@[k] != x,
        decreases list.len() - i,
    {
        if list[i] == x {
            assert(index_set(list@).contains(x as int)) by {
                assert(list@[i as int] as int == x as int);
            }
            return true;
        }
        i = i + 1;
    }
    false
}

/// The queue's items whose logical position `list` does not name.
fn without_listed(q: &Vec<Song>, list: &Vec<usize>) -> (r: Vec<Song>)
    ensures
        r@ == unskipped(q@, index_set(list@)),
{
    let mut kept: Vec<Song> = Vec::new();
    let mut j: usize = 0;
    while j < q.len()
        invariant
            j <= q.len(),
            kept@ == unskipped(q@.take(j as int), index_set(list@)),
        decreases q.len() - j,
    {
        assert(q@.take(j as int + 1).drop_last() =~= q@.take(j as int));
        if !listed(list, j + 1) {
            kept.push(q[j].duplicate());
        }
        j = j + 1;
    }
    assert(q@.take(q.len() as int) =~= q@);
    kept
}

/// A skip drops exactly the queue items that it names: the queue shrinks by
/// the number of named positions from 1 to its length.
pub proof fn skip_removes_named_items(q: Seq<Song>, s: Set<int>)
    ensures
        named_in_queue(s, q.len() as int).finite(),
        unskipped(q, s).len() == q.len() - named_in_queue(s, q.len() as int).len(),
    decreases q.len(),
{
    let n = q.len() as int;
    if n == 0 {
        assert(named_in_queue(s, 0) =~= Set::<int>::empty());
    } else {
        skip_removes_named_items(q.drop_last(), s);
        let before = named_in_queue(s, n - 1);
        if s.contains(n) {
            assert(named_in_queue(s, n) =~= before.insert(n));
        } else {
            assert(named_in_queue(s, n) =~= before);
        }
    }
}

/// A reorder moves one item: the queue keeps its length and its items, and
/// the moved item stands at the computed place.
pub proof fn reorder_is_a_move(q: Seq<Song>, from: int, to: int)
    requires
        0 <= from < q.len(),
        0 <= to,
    ensures
        reordered(q, from, to).len() == q.len(),
        reordered(q, from, to).to_multiset() == q.to_multiset(),
        reordered(q, from, to)[reorder_target(q.len() - 1, from, to)] == q[from],
{
    broadcast use vstd::seq_lib::group_to_multiset_ensures;

    let r = q.remove(from);
    let t = reorder_target(q.len() - 1, from, to);
    vstd::seq_lib::to_multiset_remove(q, from);
    vstd::seq_lib::to_multiset_insert(r, t, q[from]);
    assert(r.to_multiset().insert(q[from]) =~= q.to_multiset());
}

/// A speed change rebases the timing: the position shows no jump at the
/// moment of the change, and from then on grows at the new speed.
pub proof fn speed_change_is_continuous(before: Engine, after: Engine, now: u64, later: u64)
    requires
        rebased(&before, &after, now),
        after.state.paused == before.state.paused,
        before.position(now) <= u64::MAX,
        now <= later,
    ensures
        after.position(now) == before.position(now),
        !after.state.paused ==> after.position(later) == before.position(now) + (later - now)
            * after.state.speed as nat / 1000,
{
    assert(since(now, now) == 0);
    assert(0 * after.state.speed as nat / 1000 == 0) by (nonlinear_arith);
}

impl Engine {
    /// Applies one command. Whatever touches the device comes back as the
    /// actions to perform, in order.
    pub fn apply(&mut self, msg: PlayerMessage, now: u64) -> (actions: Vec<DeviceAction>)
        requires
            old(self).wf(),
        ensures
            final(self).wf(),
            match msg {
                PlayerMessage::Stop => {
                    &&& final(self).state.queue@.len() == 0
                    &&& same_transport(old(self), final(self))
                    &&& same_song(old(self), final(self))
                    &&& actions@ == seq![DeviceAction::Stop]
                },
                PlayerMessage::Play => {
                    &&& rebased(old(self), final(self), now)
                    &&& !final(self).state.paused
                    &&& final(self).state.volume == old(self).state.volume
                    &&& final(self).state.speed == old(self).state.speed
                    &&& final(self).state.queue@ == old(self).state.queue@
                    &&& same_song(old(self), final(self))
                    &&& actions@ == seq![DeviceAction::Play]
                },
                PlayerMessage::Pause => {
                    &&& rebased(old(self), final(self), now)
                    &&& final(self).state.paused
                    &&& final(self).state.volume == old(self).state.volume
                    &&& final(self).state.speed == old(self).state.speed
                    &&& final(self).state.queue@ == old(self).state.queue@
                    &&& same_song(old(self), final(self))
                    &&& actions@ == seq![DeviceAction::Pause]
                },
                PlayerMessage::Volume(v) => {
                    &&& final(self).state.volume == v
                    &&& final(self).state.speed == old(self).state.speed
                    &&& final(self).state.paused == old(self).state.paused
                    &&& final(self).base == old(self).base
                    &&& final(self).reference == old(self).reference
                    &&& final(self).state.queue@ == old(self).state.queue@
                    &&& same_song(old(self), final(self))
                    &&& actions@ == seq![DeviceAction::SetVolume(v)]
                },
                PlayerMessage::Speed(sp) => {
                    &&& rebased(old(self), final(self), now)
                    &&& final(self).state.speed == sp
                    &&& final(self).state.volume == old(self).state.volume
                    &&& final(self).state.paused == old(self).state.paused
                    &&& final(self).state.queue@ == old(self).state.queue@
                    &&& same_song(old(self), final(self))
                    &&& actions@ == seq![DeviceAction::SetSpeed(sp)]
                },
                PlayerMessage::Add(song) => {
                    &&& final(self).state.queue@ == old(self).state.queue@.push(song)
                    &&& same_transport(old(self), final(self))
                    &&& same_song(old(self), final(self))
                    &&& actions@.len() == 0
                },
                PlayerMessage::Clear => {
                    &&& final(self).state.queue@.len() == 0
                    &&& same_transport(old(self), final(self))
                    &&& same_song(old(self), final(self))
                    &&& actions@.len() == 0
                },
                PlayerMessage::Skip(list) => {
                    &&& final(self).state.queue@ == unskipped(
                        old(self).state.queue@,
                        index_set(list@),
                    )
                    &&& same_transport(old(self), final(self))
                    &&& same_song(old(self), final(self))
                    &&& actions@ == if index_set(list@).contains(0) {
                        seq![DeviceAction::Stop]
                    } else {
                        Seq::empty()
                    }
                },
                PlayerMessage::ReOrder(from, to) => {
                    &&& final(self).state.queue@ == reordered(
                        old(self).state.queue@,
                        from as int,
                        to as int,
                    )
                    &&& same_transport(old(self), final(self))
                    &&& same_song(old(self), final(self))
                    &&& actions@.len() == 0
                },
                PlayerMessage::Seek(secs) => match old(self).state.now_playing {
                    Some(song) => {
                        &&& final(self).base == clamp(secs as nat * 1000)
                        &&& final(self).reference == now
                        &&& final(self).state.elapsed_duration == Some(clamp(secs as nat * 1000))
                        &&& final(self).state.now_playing == old(self).state.now_playing
                        &&& final(self).state.total_duration == old(self).state.total_duration
                        &&& final(self).state.volume == old(self).state.volume
                        &&& final(self).state.speed == old(self).state.speed
                        &&& final(self).state.paused == old(self).state.paused
                        &&& final(self).state.queue@ == old(self).state.queue@
                        &&& actions@ == seq![DeviceAction::Stop, DeviceAction::Open(song, secs)]
                    },
                    None => {
                        &&& final(self).state.queue@ == old(self).state.queue@
                        &&& same_transport(old(self), final(self))
                        &&& same_song(old(self), final(self))
                        &&& actions@.len() == 0
                    },
                },
            },
    {
        let mut actions: Vec<DeviceAction> = Vec::new();
        match msg {
            PlayerMessage::Stop => {
                self.state.queue.clear();
                actions.push(DeviceAction::Stop);
            },
            PlayerMessage::Play => {
                self.base = self.current_position(now);
                self.reference = now;
                self.state.paused = false;
                actions.push(DeviceAction::Play);
            },
            PlayerMessage::Pause => {
                self.base = self.current_position(now);
                self.reference = now;
                self.state.paused = true;
                actions.push(DeviceAction::Pause);
            },
            PlayerMessage::Volume(v) => {
                self.state.volume = v;
                actions.push(DeviceAction::SetVolume(v));
            },
            PlayerMessage::Speed(sp) => {
                self.base = self.current_position(now);
                self.reference = now;
                self.state.speed = sp;
                actions.push(DeviceAction::SetSpeed(sp));
            },
            PlayerMessage::Add(song) => {
                self.state.queue.push(song);
            },
            PlayerMessage::Clear => {
                self.state.queue.clear();
            },
            PlayerMessage::Skip(list) => {
                let kept = without_listed(&self.state.queue, &list);
                self.state.queue = kept;
                if listed(&list, 0) {
                    actions.push(DeviceAction::Stop);
                }
            },
            PlayerMessage::ReOrder(from, to) => {
                if from < self.state.queue.len() {
                    let song = self.state.queue.remove(from);
                    let t: usize = if to >= from {
                        if to > 0 {
                            to - 1
                        } else {
                            0
                        }
                    } else {
                        to
                    };
                    let n = self.state.queue.len();
                    let t: usize = if t > n {
                        n
                    } else {
                        t
                    };
                    self.state.queue.insert(t, song);
                }
            },
            PlayerMessage::Seek(secs) => {
                match &self.state.now_playing {
                    Some(song) => {
                        let song = song.duplicate();
                        let at: u64 = if secs <= u64::MAX / 1000 {
                            secs * 1000
                        } else {
                            u64::MAX
                        };
                        self.base = at;
                        self.reference = now;
                        self.state.elapsed_duration = Some(at);
                        actions.push(DeviceAction::Stop);
                        actions.push(DeviceAction::Open(song, secs));
                    },
                    None => {},
                }
            },
        }
        actions
    }
}

} // verus!
