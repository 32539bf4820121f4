//! Permissions and the access keys that grant them.
use vstd::prelude::*;

verus! {

/// One capability of a remote caller. A volume range is in thousandths.
#[derive(Clone, Copy, Debug, PartialEq, Eq, Structural)]
pub enum Permission {
    VolumeControl(u64, u64),
    Seek,
    Add,
    Download,
    PlayPause,
    Info,
    All,
}

/// An access key: the hash of a secret and what it grants.
#[derive(Debug)]
pub struct Key {
    pub key: String,
    pub permissions: Vec<Permission>,
}

/// What `All` stands for once expanded: every concrete permission, volume
/// from 0 to 10, and `All` itself.
pub open spec fn expanded_all() -> Seq<Permission> {
    seq![
        Permission::VolumeControl(0, 10000),
        Permission::Seek,
        Permission::Add,
        Permission::Download,
        Permission::PlayPause,
        Permission::Info,
        Permission::All,
    ]
}

/// Whether `list` holds `p`.
pub fn holds(list: &Vec<Permission>, p: Permission) -> (r: bool)
    ensures
        r == list@.contains(p),
{
    let mut i: usize = 0;
    while i < list.len()
        invariant
            i <= list.len(),
            forall|k: int| 0 <= k < i ==> list@[k] != p,
        decreases list.len() - i,
    {
        if list[i] == p {
            return true;
        }
        i = i + 1;
    }
    false
}

/// A copy of a permission list.
pub fn copy_permissions(list: &Vec<Permission>) -> (r: Vec<Permission>)
    ensures
        r@ == list@,
{
    let mut r: Vec<Permission> = Vec::new();
    let mut i: usize = 0;
    while i < list.len()
        invariant
            i <= list.len(),
            r@ == list@.take(i as int),
        decreases list.len() - i,
    {
        r.push(list[i]);
        i = i + 1;
        assert(r@ =~= list@.take(i as int));
    }
    assert(r@ =~= list@);
    r
}

/// The permissions of the first key whose hash is `hash`; none without one.
pub open spec fn permissions_for(keys: Seq<Key>, hash: Seq<char>) -> Seq<Permission>
    decreases keys.len(),
{
    if keys.len() == 0 {
        Seq::empty()
    } else if keys[0].key@ == hash {
        keys[0].permissions@
    } else {
        permissions_for(keys.drop_first(), hash)
    }
}

/// Looks `hash` up in the key table: the first match wins.
pub fn get_permissions(hash: &String, keys: &Vec<Key>) -> (r: Vec<Permission>)
    ensures
        r@ == permissions_for(keys@, hash@),
{
    let mut i: usize = 0;
    assert(keys@.skip(0) =~= keys@);
    while i < keys.len()
        invariant
            i <= keys.len(),
            permissions_for(keys@, hash@) == permissions_for(keys@.skip(i as int), hash@),
        decreases keys.len() - i,
    {
        assert(keys@.skip(i as int).drop_first() =~= keys@.skip(i as int + 1));
        if keys[i].key == *hash {
            return copy_permissions(&keys[i].permissions);
        }
        i = i + 1;
    }
    Vec::new()
}

impl Default for Key {
    /// The key of the empty secret: it may add, download and look.
    fn default() -> (r: Key)
        ensures
            r.key@ == Seq::<char>::empty(),
            r.permissions@ == seq![Permission::Add, Permission::Download, Permission::Info],
    {
        let permissions = vec![Permission::Add, Permission::Download, Permission::Info];
        assert(permissions@ =~= seq![Permission::Add, Permission::Download, Permission::Info]);
        Key { key: String::new(), permissions }
    }
}

impl Key {
    /// Replaces a list that holds `All` by what `All` stands for.
    pub fn convert_all(&mut self)
        ensures
            final(self).key == old(self).key,
            final(self).permissions@ == if old(self).permissions@.contains(Permission::All) {
                expanded_all()
            } else {
                old(self).permissions@
            },
    {
        if holds(&self.permissions, Permission::All) {
            let all = vec![
                Permission::VolumeControl(0, 10000),
                Permission::Seek,
                Permission::Add,
                Permission::Download,
                Permission::PlayPause,
                Permission::Info,
                Permission::All,
            ];
            assert(all@ =~= expanded_all());
            self.permissions = all;
        }
    }
}

} // verus!
