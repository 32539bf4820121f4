use ssmp::auth::{get_permissions, Key, Permission};
use ssmp::commands::{PlayerMessage, SelectorMessage};
use ssmp::conf::Configuration;
use ssmp::dispatch::{dispatch, resolve_songs, Dispatch};
use ssmp::format::Format;
use ssmp::player::Engine;
use ssmp::remote::RemoteHandler;
use ssmp::request::{parse_head, Request};
use ssmp::response::{json_to_http, Response};
use ssmp::song::{Song, SongWithImage};

const EMPTY_HASH: &str = "e3b0c44298fc1c149afbf4c8996fb92427ae41e4649b934ca495991b7852b855";

fn request(method: &str, perms: Vec<Permission>, body: Option<&str>) -> Request {
    Request {
        method: method.to_string(),
        protocol: "HTTP/1.1\r\n".to_string(),
        headers: vec![],
        permissions: perms,
        body: body.map(|b| b.to_string()),
    }
}

fn all() -> Vec<Permission> {
    let mut k = Key { key: String::new(), permissions: vec![Permission::All] };
    k.convert_all();
    k.permissions
}

fn song(name: &str) -> Song {
    Song {
        name: name.to_string(),
        artist: None,
        url: None,
        path: String::new(),
        format: Format::MP3,
    }
}

fn forbidden(d: &Dispatch) -> bool {
    matches!(d, Dispatch::Reply(Response::Forbidden))
}

#[test]
fn play_without_permission_is_forbidden() {
    let d = dispatch(&request("POST /play", vec![Permission::Add], None));
    assert!(forbidden(&d));
}

#[test]
fn add_with_all_queues_in_order() {
    let d = dispatch(&request("POST /add", all(), Some("Song A\nSong B")));
    let names = match d {
        Dispatch::AddSongs(n) => n,
        other => panic!("unexpected {:?}", other),
    };
    assert_eq!(names, vec!["Song A", "Song B"]);
    let library = vec![song("Song B"), song("Other"), song("Song A")];
    let cmds = resolve_songs(&names, &library);
    assert_eq!(cmds.len(), 2);
    let mut e = Engine::new(1000);
    for c in cmds {
        e.apply(c, 0);
    }
    let queued: Vec<String> = e.state.queue.iter().map(|s| s.name.clone()).collect();
    assert_eq!(queued, vec!["Song A", "Song B"]);
}

#[test]
fn every_endpoint_refuses_an_empty_permission_set() {
    for m in [
        "GET /", "GET /list", "GET /picture", "GET /picture/list", "POST /play", "POST /pause",
        "POST /skip", "POST /reorder", "POST /add", "POST /download", "POST /download/add",
        "POST /volume", "POST /speed",
    ] {
        assert!(forbidden(&dispatch(&request(m, vec![], Some("1")))), "{}", m);
    }
}

#[test]
fn volume_needs_a_range_that_admits_the_value() {
    let perms = vec![
        Permission::All,
        Permission::PlayPause,
        Permission::VolumeControl(0, 1000),
        Permission::VolumeControl(3000, 4000),
    ];
    assert!(forbidden(&dispatch(&request("POST /volume", perms.clone(), Some("2")))));
    let d = dispatch(&request("POST /volume", perms.clone(), Some("3.5")));
    assert!(matches!(d, Dispatch::Commands(ref c) if c.len() == 1 && matches!(c[0], PlayerMessage::Volume(3500))));
    let d = dispatch(&request("POST /volume", perms.clone(), Some("0.25")));
    assert!(matches!(d, Dispatch::Commands(ref c) if matches!(c[0], PlayerMessage::Volume(250))));
    let d = dispatch(&request("POST /volume", perms.clone(), None));
    assert!(matches!(d, Dispatch::Reply(Response::BadRequest(Some(ref m))) if m == "This request requires a body"));
    let d = dispatch(&request("POST /volume", perms, Some("loud")));
    assert!(matches!(d, Dispatch::Reply(Response::BadRequest(Some(ref m))) if m == "invalid number"));
    assert!(forbidden(&dispatch(&request("POST /volume", vec![Permission::All, Permission::Seek], Some("1")))));
}

#[test]
fn skip_reorder_and_speed_bodies() {
    let d = dispatch(&request("POST /skip", all(), Some("0\nx\n2\n")));
    match d {
        Dispatch::Commands(c) => match &c[..] {
            [PlayerMessage::Skip(v)] => assert_eq!(v, &vec![0, 2]),
            _ => panic!("expected one skip"),
        },
        other => panic!("unexpected {:?}", other),
    }
    let d = dispatch(&request("POST /reorder", all(), Some("0 2\nbad\n3 1")));
    match d {
        Dispatch::Commands(c) => {
            assert_eq!(c.len(), 2);
            assert!(matches!(c[0], PlayerMessage::ReOrder(0, 2)));
            assert!(matches!(c[1], PlayerMessage::ReOrder(3, 1)));
        }
        other => panic!("unexpected {:?}", other),
    }
    let d = dispatch(&request("POST /speed", all(), Some("1.5")));
    assert!(matches!(d, Dispatch::Commands(ref c) if matches!(c[0], PlayerMessage::Speed(1500))));
    let d = dispatch(&request("POST /skip", all(), None));
    assert!(matches!(d, Dispatch::Reply(Response::BadRequest(_))));
}

#[test]
fn routes_and_protocol() {
    assert!(matches!(dispatch(&request("GET /", all(), None)), Dispatch::Snapshot));
    assert!(matches!(dispatch(&request("GET /list", all(), None)), Dispatch::Library));
    assert!(matches!(dispatch(&request("GET /picture/list", all(), None)), Dispatch::PictureList));
    assert!(matches!(dispatch(&request("GET /nothing", all(), None)), Dispatch::Reply(Response::NotFound)));
    let d = dispatch(&request("POST /pause", all(), None));
    assert!(matches!(d, Dispatch::Commands(ref c) if c.len() == 1 && matches!(c[0], PlayerMessage::Pause)));
    let d = dispatch(&request("POST /download/add", all(), Some("u1\nu2")));
    assert!(matches!(d, Dispatch::DownloadAdd(ref v) if v.len() == 2));
    let mut r = request("GET /", all(), None);
    r.protocol = "HTTP/2".to_string();
    assert!(matches!(dispatch(&r), Dispatch::Reply(Response::BadRequest(Some(ref m))) if m == "Unsupported protocol"));
}

#[test]
fn head_resolves_permissions_and_length() {
    let keys = vec![
        Key { key: sha256::digest("secret"), permissions: vec![Permission::Seek] },
        Key { key: EMPTY_HASH.to_string(), permissions: vec![Permission::Info] },
    ];
    let lines = vec!["Key: secret\r\n".to_string(), "Content-Length: 5\r\n".to_string()];
    let head = parse_head("POST /skip HTTP/1.1\r\n".to_string(), &lines, &keys).unwrap();
    assert_eq!(head.method, "POST /skip");
    assert_eq!(head.protocol, "HTTP/1.1\r\n");
    assert_eq!(head.permissions, vec![Permission::Seek]);
    assert_eq!(head.content_length, Some(5));
    assert_eq!(head.headers[0], ("Key".to_string(), "secret".to_string()));
    let anonymous = parse_head("GET / HTTP/1.1\r\n".to_string(), &vec!["Host: x\r\n".to_string()], &keys).unwrap();
    assert_eq!(anonymous.permissions, vec![Permission::Info]);
    assert_eq!(anonymous.content_length, None);
    let unknown = parse_head("GET / HTTP/1.1\r\n".to_string(), &vec!["Key: nope\r\n".to_string()], &keys).unwrap();
    assert!(unknown.permissions.is_empty());
    let bad = parse_head("GET / HTTP/1.1\r\n".to_string(), &vec!["Content-Length: five\r\n".to_string()], &keys);
    assert_eq!(bad.unwrap_err(), "Unable to parse Content-Length");
    let bad = parse_head("GARBAGE\r\n".to_string(), &vec![], &keys);
    assert_eq!(bad.unwrap_err(), "Failed to process method");
}

#[test]
fn body_is_exactly_the_declared_bytes() {
    let lines = vec!["Content-Length: 5\r\n".to_string()];
    let head = parse_head("POST /add HTTP/1.1\r\n".to_string(), &lines, &vec![]).unwrap();
    let r = Request::from_head(head, &b"helloEXTRA".to_vec()).unwrap();
    assert_eq!(r.body, Some("hello".to_string()));
    let head = parse_head("POST /add HTTP/1.1\r\n".to_string(), &lines, &vec![]).unwrap();
    let e = Request::from_head(head, &b"hey".to_vec()).unwrap_err();
    assert_eq!(e, "Unable to read promised body");
    let head = parse_head("POST /add HTTP/1.1\r\n".to_string(), &lines, &vec![]).unwrap();
    let e = Request::from_head(head, &vec![0xff, 0xfe, 0x41, 0x42, 0x43]).unwrap_err();
    assert_eq!(e, "Unable to parse body to a String");
    let head = parse_head("GET / HTTP/1.1\r\n".to_string(), &vec![], &vec![]).unwrap();
    let r = Request::from_head(head, &b"ignored".to_vec()).unwrap();
    assert_eq!(r.body, None);
}

#[test]
fn responses_on_the_wire() {
    assert_eq!(
        Response::Success(Some("hé".to_string())).get_responce(),
        "HTTP/1.1 200 Ok \r\nContent-Type: text/json\r\nContent-Length: 3\r\n\r\nhé"
    );
    assert_eq!(Response::Success(None).get_responce(), "HTTP/1.1 200 Ok \r\n\r\n");
    assert_eq!(Response::Forbidden.get_responce(), "HTTP/1.1 401 Unauthorized \r\n\r\n");
    assert_eq!(Response::NotFound.get_responce(), "HTTP/1.1 404 Not found \r\n\r\n");
    assert_eq!(
        Response::BadRequest(Some("no".to_string())).get_responce(),
        "HTTP/1.1 402 Bad request\r\nContent-Type: text/plain\r\nContent-Length: 2\r\n\r\nno"
    );
    assert_eq!(Response::BadRequest(None).get_responce(), "HTTP/1.1 402 Bad request\r\n\r\n");
    assert_eq!(
        json_to_http("[]".to_string()),
        "HTTP/1.1 200 Ok\r\nContent-Type: application/json\r\nContent-Length: 2\r\n\r\n[]"
    );
}

#[test]
fn keys_and_configuration() {
    let mut k = Key::default();
    assert_eq!(k.permissions, vec![Permission::Add, Permission::Download, Permission::Info]);
    k.convert_all();
    assert_eq!(k.permissions.len(), 3);
    let a = all();
    assert!(a.contains(&Permission::Add));
    assert!(a.contains(&Permission::VolumeControl(0, 10000)));
    let mut c = Configuration::default();
    assert_eq!(c.ip, vec!["0.0.0.0:8000", "127.0.0.1:8000"]);
    assert_eq!(c.owned_path, "songs/");
    assert_eq!(c.default_volume, 1000);
    c.keys.push(Key { key: "h".to_string(), permissions: vec![Permission::All] });
    c.expand_keys();
    assert_eq!(c.keys[1].permissions, all());
    assert_eq!(get_permissions(&"h".to_string(), &c.keys), all());
    assert_eq!(get_permissions(&"zz".to_string(), &c.keys), vec![]);
}

#[test]
fn listener_table() {
    let mut h = RemoteHandler::new();
    assert!(h.new_listener("127.0.0.1:8000".to_string(), Ok(())).is_ok());
    let e = h.new_listener("slakhfjaskghak".to_string(), Err("invalid socket address".to_string()));
    assert_eq!(e.unwrap_err(), "Unable to create listener for invalid socket address");
    assert_eq!(h.list_listeners(), vec!["127.0.0.1:8000"]);
    assert_eq!(h.stop_listener("127.0.0.1:8000".to_string()), Ok(0));
    assert!(h.listeners[0].stopping);
    assert_eq!(h.list_listeners(), vec!["127.0.0.1:8000"]);
    assert_eq!(
        h.stop_listener("1.2.3.4:5".to_string()).unwrap_err(),
        "Listener for \"1.2.3.4:5\" does not exist"
    );
}

#[test]
fn cover_art_is_base64() {
    let s = SongWithImage::new(song("A"), Some(vec![1, 2, 3]));
    assert_eq!(s.image, Some("AQID".to_string()));
    assert_eq!(s.song.name, "A");
    let s = SongWithImage::new(song("B"), None);
    assert_eq!(s.image, None);
}

#[test]
fn permission_check_needs_every_required_one() {
    let r = request("POST /play", vec![Permission::PlayPause, Permission::Info], None);
    assert_eq!(r.check_permissions(&vec![Permission::PlayPause]), Ok(()));
    assert_eq!(r.check_permissions(&vec![]), Ok(()));
    assert_eq!(
        r.check_permissions(&vec![Permission::PlayPause, Permission::Seek]),
        Err("HTTP/1.1 401 Unauthorized \r\n\r\n".to_string())
    );
}

#[test]
fn selector_buttons_send_commands() {
    let c = SelectorMessage::Play.commands(song("A"));
    assert_eq!(c.len(), 2);
    assert!(matches!(c[0], PlayerMessage::Stop));
    assert!(matches!(c[1], PlayerMessage::Add(ref s) if s.name == "A"));
    let c = SelectorMessage::Queue.commands(song("A"));
    assert!(matches!(c[..], [PlayerMessage::Add(_)]));
    assert!(SelectorMessage::QueueFront.commands(song("A")).is_empty());
}
