//! The configuration that the daemon starts from.
use vstd::prelude::*;

use crate::auth::{expanded_all, Key, Permission};

verus! {

/// Keys, the starting volume (in thousandths), where songs live and where
/// to listen.
#[derive(Debug)]
pub struct Configuration {
    pub keys: Vec<Key>,
    pub default_volume: u64,
    pub owned_path: String,
    pub outer_paths: Vec<String>,
    pub ip: Vec<String>,
}

/// A key's permissions once `All` is expanded.
pub open spec fn expanded(p: Seq<Permission>) -> Seq<Permission> {
    if p.contains(Permission::All) {
        expanded_all()
    } else {
        p
    }
}

impl Configuration {
    /// Expands `All` in every key, once, as the configuration is loaded.
    pub fn expand_keys(&mut self)
        ensures
            final(self).keys@.len() == old(self).keys@.len(),
            forall|k: int|
                0 <= k < old(self).keys@.len() ==> {
                    &&& (#[trigger] final(self).keys@[k]).key == old(self).keys@[k].key
                    &&& final(self).keys@[k].permissions@ == expanded(
                        old(self).keys@[k].permissions@,
                    )
                },
            final(self).default_volume == old(self).default_volume,
            final(self).owned_path == old(self).owned_path,
            final(self).outer_paths == old(self).outer_paths,
            final(self).ip == old(self).ip,
    {
        let mut keys: Vec<Key> = Vec::new();
        std::mem::swap(&mut keys, &mut self.keys);
        let ghost before = keys@;
        let mut out: Vec<Key> = Vec::new();
        let mut i: usize = 0;
        while i < keys.len()
            invariant
                i <= keys.len(),
                keys@ == before,
                out@.len() == i,
                forall|k: int|
                    0 <= k < i ==> {
                        &&& (#[trigger] out@[k]).key == before[k].key
                        &&& out@[k].permissions@ == expanded(before[k].permissions@)
                    },
            decreases keys.len() - i,
        {
            let mut key = Key {
                key: keys[i].key.clone(),
                permissions: crate::auth::copy_permissions(&keys[i].permissions),
            };
            key.convert_all();
            out.push(key);
            i = i + 1;
        }
        self.keys = out;
    }
}

impl Default for Configuration {
    /// The default key, unit volume, songs under `songs/`, and port 8000 on
    /// every interface and on the loopback one.
    fn default() -> (r: Configuration)
        ensures
            r.keys@.len() == 1,
            r.keys@[0].key@ == Seq::<char>::empty(),
            r.keys@[0].permissions@ == seq![
                Permission::Add,
                Permission::Download,
                Permission::Info,
            ],
            r.default_volume == 1000,
            r.owned_path@ == "songs/"@,
            r.outer_paths@.len() == 0,
            r.ip@.len() == 2,
            r.ip@[0]@ == "0.0.0.0:8000"@,
            r.ip@[1]@ == "127.0.0.1:8000"@,
    {
        let mut keys: Vec<Key> = Vec::new();
        keys.push(Key::default());
        let mut ip: Vec<String> = Vec::new();
        ip.push("0.0.0.0:8000".to_owned());
        ip.push("127.0.0.1:8000".to_owned());
        Configuration {
            keys,
            default_volume: 1000,
            owned_path: "songs/".to_owned(),
            outer_paths: Vec::new(),
            ip,
        }
    }
}

} // verus!
