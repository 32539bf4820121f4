//! The table of address listeners: which addresses are bound, and which of
//! them were asked to stop. Binding and accepting happen outside; the table
//! records their outcome.
use vstd::prelude::*;

verus! {

/// One bound address, and whether it was asked to stop.
#[derive(Debug)]
pub struct Listener {
    pub address: String,
    pub stopping: bool,
}

/// The listeners, in the order they were bound.
#[derive(Debug)]
pub struct RemoteHandler {
    pub listeners: Vec<Listener>,
}

/// The addresses of the listeners.
pub open spec fn addresses(ls: Seq<Listener>) -> Seq<Seq<char>> {
    ls.map_values(|l: Listener| l.address@)
}

/// The position of the first listener at `addr`.
pub open spec fn listener_at(ls: Seq<Listener>, addr: Seq<char>) -> Option<int> {
    if exists|k: int| 0 <= k < ls.len() && ls[k].address@ == addr {
        Some(
            choose|k: int|
                0 <= k < ls.len() && ls[k].address@ == addr && forall|m: int|
                    0 <= m < k ==> (#[trigger] ls[m]).address@ != addr,
        )
    } else {
        None
    }
}

/// The message of a failed bind.
pub open spec fn bind_error(reason: Seq<char>) -> Seq<char> {
    "Unable to create listener for "@ + reason
}

/// The message for an address that no listener is bound to.
pub open spec fn missing_listener(addr: Seq<char>) -> Seq<char> {
    "Listener for \""@ + addr + "\" does not exist"@
}

impl RemoteHandler {
    /// No listener yet.
    pub fn new() -> (r: RemoteHandler)
        ensures
            r.listeners@.len() == 0,
    {
        RemoteHandler { listeners: Vec::new() }
    }

    /// The addresses bound, those asked to stop included.
    pub fn list_listeners(&self) -> (r: Vec<String>)
        ensures
            r@.map_values(|s: String| s@) == addresses(self.listeners@),
    {
        let mut r: Vec<String> = Vec::new();
        let mut i: usize = 0;
        while i < self.listeners.len()
            invariant
                i <= self.listeners.len(),
                r@.map_values(|s: String| s@) == addresses(self.listeners@.take(i as int)),
            decreases self.listeners.len() - i,
        {
            let a = self.listeners[i].address.clone();
            let ghost before = r@;
            r.push(a);
            assert(r@.map_values(|s: String| s@) =~= before.map_values(|s: String| s@).push(a@));
            i = i + 1;
            assert(addresses(self.listeners@.take(i as int)) =~= addresses(
                self.listeners@.take(i as int - 1),
            ).push(self.listeners@[i as int - 1].address@));
        }
        assert(self.listeners@.take(self.listeners.len() as int) =~= self.listeners@);
        r
    }

    /// Asks the first listener at `addrs` to stop, and gives its position,
    /// whose accept loop the caller then ends. An error when none is there;
    /// nothing changes then.
    pub fn stop_listener(&mut self, addrs: String) -> (r: Result<usize, String>)
        ensures
            final(self).listeners@.len() == old(self).listeners@.len(),
            addresses(final(self).listeners@) == addresses(old(self).listeners@),
            match listener_at(old(self).listeners@, addrs@) {
                Some(k) => {
                    &&& r == Ok::<usize, String>(k as usize)
                    &&& final(self).listeners@[k].stopping
                    &&& forall|m: int|
                        0 <= m < old(self).listeners@.len() && m != k ==> (
                        #[trigger] final(self).listeners@[m]).stopping == old(
                            self,
                        ).listeners@[m].stopping
                },
                None => {
                    &&& (r matches Err(e) && e@ == missing_listener(addrs@))
                    &&& final(self).listeners@ == old(self).listeners@
                },
            },
    {
        let mut i: usize = 0;
        while i < self.listeners.len()
            invariant
                i <= self.listeners.len(),
                self.listeners@ == old(self).listeners@,
                forall|m: int| 0 <= m < i ==> (#[trigger] self.listeners@[m]).address@ != addrs@,
            decreases self.listeners.len() - i,
        {
            if self.listeners[i].address == addrs {
                let ghost k = i as int;
                let ghost ls = self.listeners@;
                proof {
                    let c = choose|c: int|
                        0 <= c < ls.len() && ls[c].address@ == addrs@ && forall|m: int|
                            0 <= m < c ==> (#[trigger] ls[m]).address@ != addrs@;
                    assert(0 <= k < ls.len() && ls[k].address@ == addrs@);
                    assert(0 <= c < ls.len() && ls[c].address@ == addrs@ && forall|m: int|
                        0 <= m < c ==> (#[trigger] ls[m]).address@ != addrs@);
                    if c < k {
                        assert(ls[c].address@ != addrs@);
                    }
                    if c > k {
                        assert(ls[k].address@ != addrs@);
                    }
                }
                let address = self.listeners[i].address.clone();
                self.listeners.set(i, Listener { address, stopping: true });
                assert(addresses(self.listeners@) =~= addresses(ls));
                return Ok(i);
            }
            i = i + 1;
        }
        let mut e = "Listener for \"".to_owned();
        e.append(addrs.as_str());
        e.append("\" does not exist");
        proof {
            assert(listener_at(old(self).listeners@, addrs@) is None);
        }
        Err(e)
    }

    /// Records the outcome of binding `addrs`: a listener when the bind
    /// succeeded, an error carrying its reason otherwise. A failed bind
    /// leaves the other listeners as they were.
    pub fn new_listener(&mut self, addrs: String, bound: Result<(), String>) -> (r: Result<
        (),
        String,
    >)
        ensures
            match bound {
                Ok(_) => {
                    &&& r is Ok
                    &&& final(self).listeners@.len() == old(self).listeners@.len() + 1
                    &&& final(self).listeners@.take(old(self).listeners@.len() as int)
                        == old(self).listeners@
                    &&& final(self).listeners@.last().address == addrs
                    &&& !final(self).listeners@.last().stopping
                },
                Err(reason) => {
                    &&& (r matches Err(e) && e@ == bind_error(reason@))
                    &&& final(self).listeners@ == old(self).listeners@
                },
            },
    {
        match bound {
            Ok(_) => {
                let ghost before = self.listeners@;
                self.listeners.push(Listener { address: addrs, stopping: false });
                assert(self.listeners@.take(before.len() as int) =~= before);
                Ok(())
            },
            Err(reason) => {
                let mut e = "Unable to create listener for ".to_owned();
                e.append(reason.as_str());
                Err(e)
            },
        }
    }
}

} // verus!
