use ssmp::commands::PlayerMessage;
use ssmp::format::Format;
use ssmp::player::{DeviceAction, Engine};
use ssmp::song::Song;

fn song(name: &str) -> Song {
    Song {
        name: name.to_string(),
        artist: None,
        url: None,
        path: format!("songs/{}.mp3", name),
        format: Format::MP3,
    }
}

fn names(e: &Engine) -> Vec<String> {
    e.state.queue.iter().map(|s| s.name.clone()).collect()
}

fn engine_with(queue: &[&str]) -> Engine {
    let mut e = Engine::new(1000);
    for n in queue {
        e.apply(PlayerMessage::Add(song(n)), 0);
    }
    e
}

#[test]
fn skip_playing_and_queued_items() {
    // A plays, B and C wait.
    let mut e = engine_with(&["A", "B", "C"]);
    let first = e.next_song(true).unwrap();
    assert_eq!(first.name, "A");
    e.song_started(first, Some(180_000), 0);
    assert_eq!(names(&e), vec!["B", "C"]);
    let actions = e.apply(PlayerMessage::Skip(vec![0, 2]), 100);
    assert_eq!(names(&e), vec!["B"]);
    assert_eq!(actions.len(), 1);
    assert!(matches!(actions[0], DeviceAction::Stop));
    // The device is idle on the next tick: B comes next.
    let next = e.next_song(true).unwrap();
    assert_eq!(next.name, "B");
    assert!(e.state.queue.is_empty());
}

#[test]
fn skip_counts_each_named_position_once() {
    let mut e = engine_with(&["A", "B", "C"]);
    let actions = e.apply(PlayerMessage::Skip(vec![1, 1, 5]), 0);
    assert_eq!(names(&e), vec!["B", "C"]);
    assert!(actions.is_empty());
    let actions = e.apply(PlayerMessage::Skip(vec![]), 0);
    assert_eq!(names(&e), vec!["B", "C"]);
    assert!(actions.is_empty());
    e.apply(PlayerMessage::Skip(vec![2, 1]), 0);
    assert!(e.state.queue.is_empty());
}

#[test]
fn reorder_moves_one_item() {
    let mut e = engine_with(&["X", "Y", "Z"]);
    let actions = e.apply(PlayerMessage::ReOrder(0, 2), 0);
    assert!(actions.is_empty());
    assert_eq!(names(&e), vec!["Y", "X", "Z"]);
}

#[test]
fn reorder_edges() {
    let mut e = engine_with(&["X", "Y", "Z"]);
    e.apply(PlayerMessage::ReOrder(2, 0), 0);
    assert_eq!(names(&e), vec!["Z", "X", "Y"]);
    e.apply(PlayerMessage::ReOrder(0, 99), 0);
    assert_eq!(names(&e), vec!["X", "Y", "Z"]);
    e.apply(PlayerMessage::ReOrder(0, 0), 0);
    assert_eq!(names(&e), vec!["X", "Y", "Z"]);
    e.apply(PlayerMessage::ReOrder(7, 0), 0);
    assert_eq!(names(&e), vec!["X", "Y", "Z"]);
    e.apply(PlayerMessage::ReOrder(1, 1), 0);
    assert_eq!(names(&e), vec!["Y", "X", "Z"]);
}

#[test]
fn speed_change_keeps_elapsed_continuous() {
    let mut e = engine_with(&["A"]);
    let s = e.next_song(true).unwrap();
    e.song_started(s, Some(300_000), 0);
    e.advance(10_000);
    assert_eq!(e.state.elapsed_duration, Some(10_000));
    let actions = e.apply(PlayerMessage::Speed(2000), 10_000);
    assert!(matches!(actions[0], DeviceAction::SetSpeed(2000)));
    e.advance(10_000);
    assert_eq!(e.state.elapsed_duration, Some(10_000));
    e.advance(11_000);
    assert_eq!(e.state.elapsed_duration, Some(12_000));
    e.advance(15_000);
    assert_eq!(e.state.elapsed_duration, Some(20_000));
}

#[test]
fn pause_freezes_and_play_resumes() {
    let mut e = engine_with(&["A"]);
    let s = e.next_song(true).unwrap();
    e.song_started(s, None, 1_000);
    e.advance(4_000);
    assert_eq!(e.state.elapsed_duration, Some(3_000));
    let a = e.apply(PlayerMessage::Pause, 4_000);
    assert!(matches!(a[0], DeviceAction::Pause));
    e.advance(9_000);
    assert_eq!(e.state.elapsed_duration, Some(3_000));
    let a = e.apply(PlayerMessage::Play, 9_000);
    assert!(matches!(a[0], DeviceAction::Play));
    e.advance(10_000);
    assert_eq!(e.state.elapsed_duration, Some(4_000));
}

#[test]
fn stop_clear_volume_and_seek() {
    let mut e = engine_with(&["A", "B", "C"]);
    let a = e.apply(PlayerMessage::Seek(5), 0);
    assert!(a.is_empty());
    let s = e.next_song(true).unwrap();
    e.song_started(s, None, 0);
    let a = e.apply(PlayerMessage::Seek(5), 2_000);
    assert_eq!(a.len(), 2);
    assert!(matches!(a[0], DeviceAction::Stop));
    match &a[1] {
        DeviceAction::Open(s, n) => {
            assert_eq!(s.name, "A");
            assert_eq!(*n, 5);
        }
        _ => panic!("expected an open"),
    }
    assert_eq!(e.state.elapsed_duration, Some(5_000));
    e.advance(3_000);
    assert_eq!(e.state.elapsed_duration, Some(6_000));
    let a = e.apply(PlayerMessage::Volume(1500), 0);
    assert!(matches!(a[0], DeviceAction::SetVolume(1500)));
    assert_eq!(e.state.volume, 1500);
    e.apply(PlayerMessage::Clear, 0);
    assert!(e.state.queue.is_empty());
    assert!(e.state.now_playing.is_some());
    let a = e.apply(PlayerMessage::Stop, 0);
    assert!(matches!(a[0], DeviceAction::Stop));
    // Idle with nothing queued: nothing is loaded any more.
    assert!(e.next_song(true).is_none());
    assert!(e.state.now_playing.is_none());
    assert!(e.state.elapsed_duration.is_none());
    assert!(e.state.total_duration.is_none());
}

#[test]
fn busy_device_takes_nothing() {
    let mut e = engine_with(&["A"]);
    assert!(e.next_song(false).is_none());
    assert_eq!(names(&e), vec!["A"]);
}

#[test]
fn skip_first_names_position_zero() {
    match PlayerMessage::skip_first() {
        PlayerMessage::Skip(v) => assert_eq!(v, vec![0]),
        _ => panic!("expected a skip"),
    }
}

#[test]
fn library_lookup_by_name_or_url() {
    let mut b = song("B");
    b.url = Some("https://example.org/b".to_string());
    let library = vec![song("A"), b, song("A")];
    let found = Song::from_string("https://example.org/b".to_string(), &library).unwrap();
    assert_eq!(found.name, "B");
    let found = Song::from_string("A".to_string(), &library).unwrap();
    assert_eq!(found.path, "songs/A.mp3");
    assert!(Song::from_string("Z".to_string(), &library).is_none());
    let d = Song::default();
    assert_eq!(d.name, "Unknown name");
    assert_eq!(d.format, Format::UNSUPPORTED);
}
