//! The pending-reply table: one single-use completion handle per correlation
//! id, from the moment a request is registered until its reply is resolved.
use vstd::prelude::*;

verus! {

/// No two entries share an id.
pub open spec fn ids_unique<H>(s: Seq<(u64, H)>) -> bool {
    forall|i: int, j: int| 0 <= i < j < s.len() ==> s[i].0 != s[j].0
}

/// Some entry carries `id`.
pub open spec fn registered<H>(s: Seq<(u64, H)>, id: u64) -> bool {
    exists|i: int| 0 <= i < s.len() && s[i].0 == id
}

/// The position of the entry for `id`, or -1.
pub open spec fn index_of<H>(s: Seq<(u64, H)>, id: u64) -> int {
    if registered(s, id) {
        choose|i: int| 0 <= i < s.len() && s[i].0 == id
    } else {
        -1
    }
}

/// The handles of the entries, in order of registration.
pub open spec fn handles<H>(s: Seq<(u64, H)>) -> Seq<H> {
    s.map_values(|e: (u64, H)| e.1)
}

/// Registration of `handle` under `id`: refused when `id` is already present.
pub open spec fn register_spec<H>(s: Seq<(u64, H)>, id: u64, handle: H) -> (bool, Seq<(u64, H)>) {
    if registered(s, id) {
        (false, s)
    } else {
        (true, s.push((id, handle)))
    }
}

/// Resolution of `id`: the handle registered under it, removed from the table.
pub open spec fn resolve_spec<H>(s: Seq<(u64, H)>, id: u64) -> (Option<H>, Seq<(u64, H)>) {
    if registered(s, id) {
        let i = index_of(s, id);
        (Some(s[i].1), s.remove(i))
    } else {
        (None, s)
    }
}

/// With unique ids, the entry found for `id` is the one at any position that
/// carries it.
pub proof fn lemma_index_of<H>(s: Seq<(u64, H)>, id: u64, k: int)
    requires
        ids_unique(s),
        0 <= k < s.len(),
        s[k].0 == id,
    ensures
        registered(s, id),
        index_of(s, id) == k,
{
    assert(s[k].0 == id);
}

/// Removing an entry keeps the ids unique.
pub proof fn lemma_remove_unique<H>(s: Seq<(u64, H)>, i: int)
    requires
        ids_unique(s),
        0 <= i < s.len(),
    ensures
        ids_unique(s.remove(i)),
        forall|id: u64| registered(s.remove(i), id) <==> (registered(s, id) && id != s[i].0),
{
    let r = s.remove(i);
    assert forall|id: u64| registered(r, id) <==> (registered(s, id) && id != s[i].0) by {
        if registered(r, id) {
            let j = choose|j: int| 0 <= j < r.len() && r[j].0 == id;
            if j < i {
                assert(s[j] == r[j]);
            } else {
                assert(s[j + 1] == r[j]);
            }
        }
        if registered(s, id) && id != s[i].0 {
            let j = choose|j: int| 0 <= j < s.len() && s[j].0 == id;
            if j < i {
                assert(r[j] == s[j]);
            } else {
                assert(j != i);
                assert(r[j - 1] == s[j]);
            }
        }
    }
}

/// Table of pending replies keyed by correlation id.
pub struct PendingTable<H> {
    entries: Vec<(u64, H)>,
}

impl<H> View for PendingTable<H> {
    type V = Seq<(u64, H)>;

    closed spec fn view(&self) -> Seq<(u64, H)> {
        self.entries@
    }
}

impl<H> PendingTable<H> {
    /// Each id occurs at most once.
    pub closed spec fn wf(&self) -> bool {
        ids_unique(self.entries@)
    }

    /// An empty table.
    pub fn new() -> (r: Self)
        ensures
            r.wf(),
            r@ == Seq::<(u64, H)>::empty(),
    {
        PendingTable { entries: Vec::new() }
    }

    /// The number of pending replies.
    pub fn len(&self) -> (r: usize)
        ensures
            r == self@.len(),
    {
        self.entries.len()
    }

    /// Whether a reply is pending under `id`.
    pub fn contains(&self, id: u64) -> (r: bool)
        requires
            self.wf(),
        ensures
            r == registered(self@, id),
    {
        self.find(id).is_some()
    }

    fn find(&self, id: u64) -> (r: Option<usize>)
        requires
            self.wf(),
        ensures
            r is Some <==> registered(self@, id),
            r matches Some(i) ==> i == index_of(self@, id),
    {
        let mut i: usize = 0;
        while i < self.entries.len()
            invariant
                i <= self.entries@.len(),
                ids_unique(self.entries@),
                forall|j: int| 0 <= j < i ==> self.entries@[j].0 != id,
            decreases self.entries.len() - i,
        {
            if self.entries[i].0 == id {
                proof {
                    lemma_index_of(self.entries@, id, i as int);
                }
                return Some(i);
            }
            i = i + 1;
        }
        None
    }

    /// Stores `handle` under `id`. When `id` is already pending the table is
    /// left as it was and the handle is given back.
    pub fn register(&mut self, id: u64, handle: H) -> (r: Result<(), H>)
        requires
            old(self).wf(),
        ensures
            final(self).wf(),
            (r is Ok, final(self)@) == register_spec(old(self)@, id, handle),
            r matches Err(h) ==> h == handle,
    {
        if self.find(id).is_some() {
            Err(handle)
        } else {
            self.entries.push((id, handle));
            Ok(())
        }
    }

    /// Removes the entry for `id` and hands out its handle; `None` when no
    /// reply is pending under `id`.
    pub fn resolve(&mut self, id: u64) -> (r: Option<H>)
        requires
            old(self).wf(),
        ensures
            final(self).wf(),
            (r, final(self)@) == resolve_spec(old(self)@, id),
    {
        match self.find(id) {
            None => None,
            Some(k) => {
                proof {
                    lemma_remove_unique(self.entries@, k as int);
                }
                let (_, h) = self.entries.remove(k);
                Some(h)
            },
        }
    }

    /// Empties the table and hands out every handle, in order of registration.
    pub fn drain(&mut self) -> (r: Vec<H>)
        requires
            old(self).wf(),
        ensures
            final(self).wf(),
            final(self)@ == Seq::<(u64, H)>::empty(),
            r@ == handles(old(self)@),
    {
        let mut rest: Vec<(u64, H)> = Vec::new();
        std::mem::swap(&mut rest, &mut self.entries);
        let ghost all = rest@;
        let mut out: Vec<H> = Vec::new();
        while rest.len() > 0
            invariant
                out@ + handles(rest@) == handles(all),
            decreases rest.len(),
        {
            let ghost before = rest@;
            let (_, h) = rest.remove(0);
            proof {
                assert(handles(before) =~= seq![h] + handles(rest@));
            }
            out.push(h);
            assert(out@ + handles(rest@) =~= handles(all));
        }
        assert(handles(rest@) =~= Seq::<H>::empty());
        assert(out@ =~= handles(all));
        assert(self.entries@ =~= Seq::<(u64, H)>::empty());
        out
    }
}

} // verus!
