//! The endpoint table: which permission each endpoint asks for, and what a
//! permitted request turns into.
use vstd::prelude::*;

use crate::auth::{holds, Permission};
use crate::commands::PlayerMessage;
use crate::request::{string_views, Request};
use crate::response::Response;
use crate::song::{first_answering, Song};
use crate::text::{
    chars_of, level_of, lines_of, parse_level, parse_usize, parsed_usize, split_first, split_once,
    string_of, text_lines, trim, trimmed, views,
};

verus! {

/// The endpoints of the remote protocol.
#[derive(Clone, Copy, Debug, PartialEq, Eq, Structural)]
pub enum Endpoint {
    Status,
    List,
    Picture,
    PictureList,
    Play,
    Pause,
    Skip,
    ReOrder,
    Add,
    Download,
    DownloadAdd,
    Volume,
    Speed,
}

/// The endpoint that a method and path name.
pub open spec fn endpoint_of(m: Seq<char>) -> Option<Endpoint> {
    if m == "GET /"@ {
        Some(Endpoint::Status)
    } else if m == "GET /list"@ {
        Some(Endpoint::List)
    } else if m == "GET /picture"@ {
        Some(Endpoint::Picture)
    } else if m == "GET /picture/list"@ {
        Some(Endpoint::PictureList)
    } else if m == "POST /play"@ {
        Some(Endpoint::Play)
    } else if m == "POST /pause"@ {
        Some(Endpoint::Pause)
    } else if m == "POST /skip"@ {
        Some(Endpoint::Skip)
    } else if m == "POST /reorder"@ {
        Some(Endpoint::ReOrder)
    } else if m == "POST /add"@ {
        Some(Endpoint::Add)
    } else if m == "POST /download"@ {
        Some(Endpoint::Download)
    } else if m == "POST /download/add"@ {
        Some(Endpoint::DownloadAdd)
    } else if m == "POST /volume"@ {
        Some(Endpoint::Volume)
    } else if m == "POST /speed"@ {
        Some(Endpoint::Speed)
    } else {
        None
    }
}

/// The permission an endpoint asks for; the volume endpoint asks for a
/// volume range instead.
pub open spec fn required(e: Endpoint) -> Option<Permission> {
    match e {
        Endpoint::Status | Endpoint::List | Endpoint::Picture | Endpoint::PictureList => Some(
            Permission::Info,
        ),
        Endpoint::Play | Endpoint::Pause => Some(Permission::PlayPause),
        Endpoint::Skip | Endpoint::ReOrder | Endpoint::Speed => Some(Permission::Seek),
        Endpoint::Add => Some(Permission::Add),
        Endpoint::Download | Endpoint::DownloadAdd => Some(Permission::Download),
        Endpoint::Volume => None,
    }
}

/// Whether some volume range is held.
pub open spec fn has_volume_range(perms: Seq<Permission>) -> bool {
    exists|k: int| 0 <= k < perms.len() && perms[k] is VolumeControl
}

/// Whether a held volume range admits `v`.
pub open spec fn volume_admitted(perms: Seq<Permission>, v: u64) -> bool {
    exists|k: int|
        0 <= k < perms.len() && (#[trigger] perms[k] matches Permission::VolumeControl(lo, hi)
            && lo <= v && v <= hi)
}

/// Whether the held permissions let a request reach endpoint `e`.
pub open spec fn permitted(e: Endpoint, perms: Seq<Permission>) -> bool {
    match required(e) {
        Some(p) => perms.contains(p),
        None => has_volume_range(perms),
    }
}

/// Whether `e` works on a body.
pub open spec fn needs_body(e: Endpoint) -> bool {
    match e {
        Endpoint::Status | Endpoint::List | Endpoint::PictureList | Endpoint::Play
        | Endpoint::Pause => false,
        _ => true,
    }
}

/// The positions listed one per line; lines that are no number are passed over.
pub open spec fn skip_list(lines: Seq<Seq<char>>) -> Seq<usize>
    decreases lines.len(),
{
    if lines.len() == 0 {
        Seq::empty()
    } else {
        let p = skip_list(lines.drop_last());
        match parsed_usize(lines.last()) {
            Some(n) => p.push(n),
            None => p,
        }
    }
}

/// The move of one line `from to`.
pub open spec fn reorder_pair(line: Seq<char>) -> Option<(usize, usize)> {
    match split_first(line, ' ') {
        Some((a, b)) => match (parsed_usize(a), parsed_usize(b)) {
            (Some(f), Some(t)) => Some((f, t)),
            _ => None,
        },
        None => None,
    }
}

/// The moves listed one per line; other lines are passed over.
pub open spec fn reorder_list(lines: Seq<Seq<char>>) -> Seq<(usize, usize)>
    decreases lines.len(),
{
    if lines.len() == 0 {
        Seq::empty()
    } else {
        let p = reorder_list(lines.drop_last());
        match reorder_pair(lines.last()) {
            Some(m) => p.push(m),
            None => p,
        }
    }
}

/// The library's songs that the names answer to, in the names' order;
/// names that none answers to are passed over.
pub open spec fn found_songs(names: Seq<Seq<char>>, library: Seq<Song>) -> Seq<Song>
    decreases names.len(),
{
    if names.len() == 0 {
        Seq::empty()
    } else {
        let p = found_songs(names.drop_last(), library);
        match first_answering(library, names.last()) {
            Some(k) => p.push(library[k]),
            None => p,
        }
    }
}

/// What a request comes to: a reply decided here, commands for the engine,
/// or work that needs the library, the snapshot or the downloader.
#[derive(Debug)]
pub enum Dispatch {
    Reply(Response),
    Commands(Vec<PlayerMessage>),
    Snapshot,
    Library,
    Pictures(Vec<String>),
    PictureList,
    AddSongs(Vec<String>),
    Download(Vec<String>),
    DownloadAdd(Vec<String>),
}

/// The endpoint named by a method and path.
pub fn endpoint(m: &String) -> (r: Option<Endpoint>)
    ensures
        r == endpoint_of(m@),
{
    if *m == "GET /".to_owned() {
        Some(Endpoint::Status)
    } else if *m == "GET /list".to_owned() {
        Some(Endpoint::List)
    } else if *m == "GET /picture".to_owned() {
        Some(Endpoint::Picture)
    } else if *m == "GET /picture/list".to_owned() {
        Some(Endpoint::PictureList)
    } else if *m == "POST /play".to_owned() {
        Some(Endpoint::Play)
    } else if *m == "POST /pause".to_owned() {
        Some(Endpoint::Pause)
    } else if *m == "POST /skip".to_owned() {
        Some(Endpoint::Skip)
    } else if *m == "POST /reorder".to_owned() {
        Some(Endpoint::ReOrder)
    } else if *m == "POST /add".to_owned() {
        Some(Endpoint::Add)
    } else if *m == "POST /download".to_owned() {
        Some(Endpoint::Download)
    } else if *m == "POST /download/add".to_owned() {
        Some(Endpoint::DownloadAdd)
    } else if *m == "POST /volume".to_owned() {
        Some(Endpoint::Volume)
    } else if *m == "POST /speed".to_owned() {
        Some(Endpoint::Speed)
    } else {
        None
    }
}

/// Whether the held permissions let a request reach `e`.
pub fn is_permitted(e: Endpoint, perms: &Vec<Permission>) -> (r: bool)
    ensures
        r == permitted(e, perms@),
{
    match e {
        Endpoint::Status | Endpoint::List | Endpoint::Picture | Endpoint::PictureList => holds(
            perms,
            Permission::Info,
        ),
        Endpoint::Play | Endpoint::Pause => holds(perms, Permission::PlayPause),
        Endpoint::Skip | Endpoint::ReOrder | Endpoint::Speed => holds(perms, Permission::Seek),
        Endpoint::Add => holds(perms, Permission::Add),
        Endpoint::Download | Endpoint::DownloadAdd => holds(perms, Permission::Download),
        Endpoint::Volume => {
            let mut i: usize = 0;
            while i < perms.len()
                invariant
                    e == Endpoint::Volume,
                    i <= perms.len(),
                    forall|k: int| 0 <= k < i ==> !(perms@[k] is VolumeControl),
                decreases perms.len() - i,
            {
                match perms[i] {
                    Permission::VolumeControl(_, _) => {
                        assert(perms@[i as int] is VolumeControl);
                        return true;
                    },
                    _ => {},
                }
                i = i + 1;
            }
            false
        },
    }
}

/// Whether a held volume range admits `v`.
pub fn admits_volume(perms: &Vec<Permission>, v: u64) -> (r: bool)
    ensures
        r == volume_admitted(perms@, v),
{
    let mut i: usize = 0;
    while i < perms.len()
        invariant
            i <= perms.len(),
            forall|k: int|
                0 <= k < i ==> !(#[trigger] perms@[k] matches Permission::VolumeControl(lo, hi)
                    && lo <= v && v <= hi),
        decreases perms.len() - i,
    {
        match perms[i] {
            Permission::VolumeControl(lo, hi) => {
                if lo <= v && v <= hi {
                    return true;
                }
            },
            _ => {},
        }
        i = i + 1;
    }
    false
}

/// What a permitted request with body text `b` (empty without a body)
/// comes to at endpoint `e`.
pub open spec fn served(e: Endpoint, b: Seq<char>, perms: Seq<Permission>, r: Dispatch) -> bool {
    let lines = text_lines(b);
    match e {
        Endpoint::Status => r is Snapshot,
        Endpoint::List => r is Library,
        Endpoint::Picture => (r matches Dispatch::Pictures(v) && string_views(v@) == lines),
        Endpoint::PictureList => r is PictureList,
        Endpoint::Play => (r matches Dispatch::Commands(c) && c@ == seq![PlayerMessage::Play]),
        Endpoint::Pause => (r matches Dispatch::Commands(c) && c@ == seq![PlayerMessage::Pause]),
        Endpoint::Skip => (r matches Dispatch::Commands(c) && c@.len() == 1 && (c@[0] matches PlayerMessage::Skip(v)
            && v@ == skip_list(lines))),
        Endpoint::ReOrder => (r matches Dispatch::Commands(c) && c@ == reorder_list(lines).map_values(
            |m: (usize, usize)| PlayerMessage::ReOrder(m.0, m.1),
        )),
        Endpoint::Add => (r matches Dispatch::AddSongs(v) && string_views(v@) == lines),
        Endpoint::Download => (r matches Dispatch::Download(v) && string_views(v@) == lines),
        Endpoint::DownloadAdd => (r matches Dispatch::DownloadAdd(v) && string_views(v@) == lines),
        Endpoint::Volume => match level_of(b) {
            None => (r matches Dispatch::Reply(Response::BadRequest(Some(m))) && m@
                == "invalid number"@),
            Some(v) => if volume_admitted(perms, v) {
                (r matches Dispatch::Commands(c) && c@ == seq![PlayerMessage::Volume(v)])
            } else {
                (r matches Dispatch::Reply(Response::Forbidden))
            },
        },
        Endpoint::Speed => match level_of(b) {
            None => (r matches Dispatch::Reply(Response::BadRequest(Some(m))) && m@
                == "invalid number"@),
            Some(v) => (r matches Dispatch::Commands(c) && c@ == seq![PlayerMessage::Speed(v)]),
        },
    }
}

/// The body's text, empty without a body.
pub open spec fn body_or_empty(body: Option<String>) -> Seq<char> {
    match body {
        Some(b) => b@,
        None => Seq::empty(),
    }
}

/// The lines as strings.
fn line_strings(lines: &Vec<Vec<char>>) -> (r: Vec<String>)
    ensures
        string_views(r@) == views(lines@),
{
    let mut r: Vec<String> = Vec::new();
    let mut i: usize = 0;
    while i < lines.len()
        invariant
            i <= lines.len(),
            string_views(r@) == views(lines@.take(i as int)),
        decreases lines.len() - i,
    {
        let s = string_of(&lines[i]);
        let ghost before = r@;
        r.push(s);
        assert(string_views(r@) =~= string_views(before).push(s@));
        i = i + 1;
        assert(views(lines@.take(i as int)) =~= views(lines@.take(i as int - 1)).push(
            lines@[i as int - 1]@,
        ));
    }
    assert(lines@.take(lines.len() as int) =~= lines@);
    r
}

/// The positions listed one per line.
pub fn skip_positions(lines: &Vec<Vec<char>>) -> (r: Vec<usize>)
    ensures
        r@ == skip_list(views(lines@)),
{
    let mut r: Vec<usize> = Vec::new();
    let mut i: usize = 0;
    while i < lines.len()
        invariant
            i <= lines.len(),
            r@ == skip_list(views(lines@.take(i as int))),
        decreases lines.len() - i,
    {
        assert(views(lines@.take(i as int + 1)).drop_last() =~= views(lines@.take(i as int)));
        match parse_usize(&lines[i]) {
            Some(n) => r.push(n),
            None => {},
        }
        i = i + 1;
    }
    assert(lines@.take(lines.len() as int) =~= lines@);
    r
}

/// The moves listed one per line, as commands.
pub fn reorder_moves(lines: &Vec<Vec<char>>) -> (r: Vec<PlayerMessage>)
    ensures
        r@ == reorder_list(views(lines@)).map_values(
            |m: (usize, usize)| PlayerMessage::ReOrder(m.0, m.1),
        ),
{
    let mut r: Vec<PlayerMessage> = Vec::new();
    let mut i: usize = 0;
    while i < lines.len()
        invariant
            i <= lines.len(),
            r@ == reorder_list(views(lines@.take(i as int))).map_values(
                |m: (usize, usize)| PlayerMessage::ReOrder(m.0, m.1),
            ),
        decreases lines.len() - i,
    {
        assert(views(lines@.take(i as int + 1)).drop_last() =~= views(lines@.take(i as int)));
        assert(views(lines@.take(i as int + 1)).last() == lines@[i as int]@);
        let ghost before = r@;
        match split_once(&lines[i], ' ') {
            Some((a, b)) => match (parse_usize(&a), parse_usize(&b)) {
                (Some(f), Some(t)) => {
                    r.push(PlayerMessage::ReOrder(f, t));
                },
                _ => {},
            },
            None => {},
        }
        i = i + 1;
        assert(r@ =~= reorder_list(views(lines@.take(i as int))).map_values(
            |m: (usize, usize)| PlayerMessage::ReOrder(m.0, m.1),
        ));
    }
    assert(lines@.take(lines.len() as int) =~= lines@);
    r
}

/// Decides what a request comes to. The protocol must be HTTP/1.1; an
/// unknown method and path is not found; a caller without the endpoint's
/// permission is refused before anything else is looked at.
pub fn dispatch(request: &Request) -> (r: Dispatch)
    ensures
        trimmed(request.protocol@) != "HTTP/1.1"@ ==> (r matches Dispatch::Reply(
            Response::BadRequest(Some(m)),
        ) && m@ == "Unsupported protocol"@),
        trimmed(request.protocol@) == "HTTP/1.1"@ ==> match endpoint_of(request.method@) {
            None => (r matches Dispatch::Reply(Response::NotFound)),
            Some(e) => if !permitted(e, request.permissions@) {
                (r matches Dispatch::Reply(Response::Forbidden))
            } else if needs_body(e) && request.body is None {
                (r matches Dispatch::Reply(Response::BadRequest(Some(m))) && m@
                    == "This request requires a body"@)
            } else {
                served(e, body_or_empty(request.body), request.permissions@, r)
            },
        },
{
    let protocol = string_of(&trim(&chars_of(request.protocol.as_str())));
    if protocol != "HTTP/1.1".to_owned() {
        return Dispatch::Reply(Response::BadRequest(Some("Unsupported protocol".to_owned())));
    }
    let e = match endpoint(&request.method) {
        Some(e) => e,
        None => {
            return Dispatch::Reply(Response::NotFound);
        },
    };
    if !is_permitted(e, &request.permissions) {
        return Dispatch::Reply(Response::Forbidden);
    }
    let body: String = match &request.body {
        Some(b) => b.clone(),
        None => {
            if e != Endpoint::Status && e != Endpoint::List && e != Endpoint::PictureList && e
                != Endpoint::Play && e != Endpoint::Pause {
                return Dispatch::Reply(
                    Response::BadRequest(Some("This request requires a body".to_owned())),
                );
            }
            String::new()
        },
    };
    let text = chars_of(body.as_str());
    match e {
        Endpoint::Status => Dispatch::Snapshot,
        Endpoint::List => Dispatch::Library,
        Endpoint::PictureList => Dispatch::PictureList,
        Endpoint::Play => {
            let mut c = Vec::new();
            c.push(PlayerMessage::Play);
            assert(c@ =~= seq![PlayerMessage::Play]);
            Dispatch::Commands(c)
        },
        Endpoint::Pause => {
            let mut c = Vec::new();
            c.push(PlayerMessage::Pause);
            assert(c@ =~= seq![PlayerMessage::Pause]);
            Dispatch::Commands(c)
        },
        Endpoint::Picture => Dispatch::Pictures(line_strings(&lines_of(&text))),
        Endpoint::Add => Dispatch::AddSongs(line_strings(&lines_of(&text))),
        Endpoint::Download => Dispatch::Download(line_strings(&lines_of(&text))),
        Endpoint::DownloadAdd => Dispatch::DownloadAdd(line_strings(&lines_of(&text))),
        Endpoint::Skip => {
            let positions = skip_positions(&lines_of(&text));
            let mut c = Vec::new();
            c.push(PlayerMessage::Skip(positions));
            Dispatch::Commands(c)
        },
        Endpoint::ReOrder => Dispatch::Commands(reorder_moves(&lines_of(&text))),
        Endpoint::Volume => match parse_level(&text) {
            None => Dispatch::Reply(Response::BadRequest(Some("invalid number".to_owned()))),
            Some(v) => {
                if admits_volume(&request.permissions, v) {
                    let mut c = Vec::new();
                    c.push(PlayerMessage::Volume(v));
                    assert(c@ =~= seq![PlayerMessage::Volume(v)]);
                    Dispatch::Commands(c)
                } else {
                    Dispatch::Reply(Response::Forbidden)
                }
            },
        },
        Endpoint::Speed => match parse_level(&text) {
            None => Dispatch::Reply(Response::BadRequest(Some("invalid number".to_owned()))),
            Some(v) => {
                let mut c = Vec::new();
                c.push(PlayerMessage::Speed(v));
                assert(c@ =~= seq![PlayerMessage::Speed(v)]);
                Dispatch::Commands(c)
            },
        },
    }
}

/// The library's songs that the names answer to, in the names' order.
pub fn find_songs(names: &Vec<String>, library: &Vec<Song>) -> (r: Vec<Song>)
    ensures
        r@ == found_songs(string_views(names@), library@),
{
    let mut r: Vec<Song> = Vec::new();
    let mut i: usize = 0;
    while i < names.len()
        invariant
            i <= names.len(),
            r@ == found_songs(string_views(names@.take(i as int)), library@),
        decreases names.len() - i,
    {
        assert(string_views(names@.take(i as int + 1)).drop_last() =~= string_views(
            names@.take(i as int),
        ));
        assert(string_views(names@.take(i as int + 1)).last() == names@[i as int]@);
        match Song::from_string(names[i].clone(), library) {
            Some(song) => r.push(song),
            None => {},
        }
        i = i + 1;
    }
    assert(names@.take(names.len() as int) =~= names@);
    r
}

/// One `Add` command for each song that the names answer to, in order.
pub fn resolve_songs(names: &Vec<String>, library: &Vec<Song>) -> (r: Vec<PlayerMessage>)
    ensures
        r@ == found_songs(string_views(names@), library@).map_values(
            |s: Song| PlayerMessage::Add(s),
        ),
{
    let found = find_songs(names, library);
    let mut r: Vec<PlayerMessage> = Vec::new();
    let mut i: usize = 0;
    while i < found.len()
        invariant
            i <= found.len(),
            r@ == found@.take(i as int).map_values(|s: Song| PlayerMessage::Add(s)),
        decreases found.len() - i,
    {
        r.push(PlayerMessage::Add(found[i].duplicate()));
        i = i + 1;
        assert(r@ =~= found@.take(i as int).map_values(|s: Song| PlayerMessage::Add(s)));
    }
    assert(found@.take(found.len() as int) =~= found@);
    r
}

} // verus!
