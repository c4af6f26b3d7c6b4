use vstd::prelude::*;
use crate::error::Error;

verus! {

/// The characters of each string.
pub open spec fn ids_view(v: Seq<String>) -> Seq<Seq<char>> {
    v.map_values(|s: String| s@)
}

/// The (room, event) pairs that marking `event_ids` in `room` sets.
pub open spec fn marked_pairs(room: Seq<char>, event_ids: Seq<String>) -> Set<(Seq<char>, Seq<char>)> {
    Set::new(
        |p: (Seq<char>, Seq<char>)|
            p.0 == room && exists|i: int| 0 <= i < event_ids.len() && #[trigger] event_ids[i]@ == p.1,
    )
}

/// Relation edges between events, and the referenced and soft-failed flags.
/// Event ids are keyed by stable short ids: the position of the event id in
/// the allocation order.
pub struct Service {
    shortids: Vec<String>,
    relations: Vec<(u64, u64)>,
    referenced: Vec<(String, String)>,
    soft_failed: Vec<String>,
}

impl Service {
    /// The event ids, indexed by short id.
    pub closed spec fn ids(&self) -> Seq<Seq<char>> {
        ids_view(self.shortids@)
    }

    /// The relation edges, as pairs of short ids.
    pub closed spec fn edges(&self) -> Set<(u64, u64)> {
        self.relations@.to_set()
    }

    /// The (room, event) pairs marked referenced.
    pub closed spec fn referenced_set(&self) -> Set<(Seq<char>, Seq<char>)> {
        Set::new(
            |p: (Seq<char>, Seq<char>)|
                exists|i: int|
                    0 <= i < self.referenced@.len() && #[trigger] self.referenced@[i].0@ == p.0
                        && self.referenced@[i].1@ == p.1,
        )
    }

    /// The events marked soft-failed.
    pub closed spec fn soft_failed_set(&self) -> Set<Seq<char>> {
        Set::new(
            |e: Seq<char>|
                exists|i: int| 0 <= i < self.soft_failed@.len() && #[trigger] self.soft_failed@[i]@ == e,
        )
    }

    /// The short id of event `e`.
    pub open spec fn short_id(&self, e: Seq<char>) -> int {
        self.ids().index_of(e)
    }

    /// Each event id has one short id, and each edge is stored once.
    pub closed spec fn wf(&self) -> bool {
        &&& self.ids().no_duplicates()
        &&& self.relations@.no_duplicates()
        &&& self.shortids@.len() <= u64::MAX
    }

    pub fn new() -> (r: Service)
        ensures
            r.wf(),
            r.ids() == Seq::<Seq<char>>::empty(),
            r.edges() == Set::<(u64, u64)>::empty(),
            r.referenced_set() == Set::<(Seq<char>, Seq<char>)>::empty(),
            r.soft_failed_set() == Set::<Seq<char>>::empty(),
    {
        let r = Service {
            shortids: Vec::new(),
            relations: Vec::new(),
            referenced: Vec::new(),
            soft_failed: Vec::new(),
        };
        assert(r.ids() =~= Seq::<Seq<char>>::empty());
        assert(r.edges() =~= Set::<(u64, u64)>::empty());
        assert(r.referenced_set() =~= Set::<(Seq<char>, Seq<char>)>::empty());
        assert(r.soft_failed_set() =~= Set::<Seq<char>>::empty());
        r
    }

    fn find_shortid(&self, event_id: &String) -> (r: Option<u64>)
        requires
            self.wf(),
        ensures
            match r {
                Some(id) => id < self.ids().len() && self.ids()[id as int] == event_id@,
                None => !self.ids().contains(event_id@),
            },
    {
        let mut i: usize = 0;
        while i < self.shortids.len()
            invariant
                self.wf(),
                i <= self.shortids@.len(),
                forall|j: int| 0 <= j < i ==> self.ids()[j] != event_id@,
            decreases self.shortids@.len() - i,
        {
            if self.shortids[i] == *event_id {
                return Some(i as u64);
            }
            i = i + 1;
        }
        None
    }

    /// The short id of `event_id`, allocating the next one for an event seen
    /// for the first time; fails only when no short id is left.
    pub fn get_or_create_shorteventid(&mut self, event_id: &String) -> (r: Result<u64, Error>)
        requires
            old(self).wf(),
        ensures
            final(self).wf(),
            final(self).edges() == old(self).edges(),
            final(self).referenced_set() == old(self).referenced_set(),
            final(self).soft_failed_set() == old(self).soft_failed_set(),
            r is Err <==> !old(self).ids().contains(event_id@) && old(self).ids().len()
                == u64::MAX,
            r is Err ==> r->Err_0 == Error::ShortIdExhausted && *final(self) == *old(self),
            old(self).ids().contains(event_id@) ==> *final(self) == *old(self),
            r matches Ok(id) ==> {
                &&& final(self).ids() == if old(self).ids().contains(event_id@) {
                    old(self).ids()
                } else {
                    old(self).ids().push(event_id@)
                }
                &&& id < final(self).ids().len()
                &&& final(self).ids()[id as int] == event_id@
                &&& final(self).short_id(event_id@) == id
            },
    {
        match self.find_shortid(event_id) {
            Some(id) => {
                proof { self.lemma_short_id(event_id@, id as int); }
                Ok(id)
            },
            None => {
                if self.shortids.len() as u64 == u64::MAX {
                    return Err(Error::ShortIdExhausted);
                }
                let id = self.shortids.len() as u64;
                let ghost before = self.ids();
                self.shortids.push(event_id.clone());
                proof {
                    assert(self.ids() =~= before.push(event_id@));
                    assert forall|a: int, b: int|
                        0 <= a < self.ids().len() && 0 <= b < self.ids().len() && a != b implies
                        self.ids()[a] != self.ids()[b] by {
                        if a < before.len() && b < before.len() {
                        } else if a < before.len() {
                            assert(before[a] == self.ids()[a]);
                        } else {
                            assert(before[b] == self.ids()[b]);
                        }
                    }
                    self.lemma_short_id(event_id@, id as int);
                }
                Ok(id)
            },
        }
    }

    fn has_edge(&self, from: u64, to: u64) -> (r: bool)
        ensures
            r == self.edges().contains((from, to)),
    {
        let mut i: usize = 0;
        while i < self.relations.len()
            invariant
                i <= self.relations@.len(),
                forall|j: int| 0 <= j < i ==> self.relations@[j] != (from, to),
            decreases self.relations@.len() - i,
        {
            if self.relations[i].0 == from && self.relations[i].1 == to {
                assert(self.relations@.contains((from, to)));
                return true;
            }
            i = i + 1;
        }
        false
    }

    /// Records that event `from` refers to event `to`. Recording an edge
    /// that is already there changes nothing and is no error.
    pub fn add_relation(&mut self, from: &String, to: &String) -> (r: Result<(), Error>)
        requires
            old(self).wf(),
        ensures
            final(self).wf(),
            final(self).referenced_set() == old(self).referenced_set(),
            final(self).soft_failed_set() == old(self).soft_failed_set(),
            r is Ok ==> {
                &&& final(self).ids().contains(from@)
                &&& final(self).ids().contains(to@)
                &&& final(self).edges() == old(self).edges().insert(
                    (final(self).short_id(from@) as u64, final(self).short_id(to@) as u64),
                )
            },
            r is Err ==> r->Err_0 == Error::ShortIdExhausted,
            old(self).ids().contains(from@) && old(self).ids().contains(to@) ==> r is Ok,
            old(self).ids().len() + 2 <= u64::MAX ==> r is Ok,
            old(self).ids().contains(from@) && old(self).ids().contains(to@) && old(
                self,
            ).edges().contains((old(self).short_id(from@) as u64, old(self).short_id(to@) as u64))
                ==> *final(self) == *old(self),
    {
        let f = match self.get_or_create_shorteventid(from) {
            Ok(f) => f,
            Err(e) => {
                return Err(e);
            },
        };
        let t = match self.get_or_create_shorteventid(to) {
            Ok(t) => t,
            Err(e) => {
                return Err(e);
            },
        };
        proof {
            assert(self.ids().contains(from@)) by {
                assert(self.ids()[f as int] == from@);
            }
            assert(self.ids().contains(to@)) by {
                assert(self.ids()[t as int] == to@);
            }
            self.lemma_short_id(from@, f as int);
        }
        if !self.has_edge(f, t) {
            let ghost before = self.relations@;
            self.relations.push((f, t));
            proof {
                assert(self.relations@ =~= before.push((f, t)));
                assert(self.edges() =~= before.to_set().insert((f, t))) by {
                    assert(self.relations@[before.len() as int] == (f, t));
                    assert forall|x: (u64, u64)| #[trigger] before.contains(x) implies self.relations@.contains(x) by {
                        let j = choose|j: int| 0 <= j < before.len() && before[j] == x;
                        assert(self.relations@[j] == x);
                    }
                }
            }
        } else {
            proof {
                assert(self.edges() =~= self.edges().insert((f, t)));
            }
        }
        Ok(())
    }

    /// Whether `event_id` is marked referenced in `room_id`.
    pub fn is_event_referenced(&self, room_id: &String, event_id: &String) -> (r: bool)
        ensures
            r == self.referenced_set().contains((room_id@, event_id@)),
    {
        let mut i: usize = 0;
        while i < self.referenced.len()
            invariant
                i <= self.referenced@.len(),
                forall|j: int|
                    0 <= j < i ==> !(#[trigger] self.referenced@[j].0@ == room_id@
                        && self.referenced@[j].1@ == event_id@),
            decreases self.referenced@.len() - i,
        {
            if self.referenced[i].0 == *room_id && self.referenced[i].1 == *event_id {
                assert(self.referenced@[i as int].0@ == room_id@);
                return true;
            }
            i = i + 1;
        }
        false
    }

    /// Marks each of `event_ids` referenced in `room_id`. The marks appear
    /// all together: nothing can fail once the first is set.
    pub fn mark_as_referenced(&mut self, room_id: &String, event_ids: &Vec<String>) -> (r: Result<(), Error>)
        requires
            old(self).wf(),
        ensures
            r is Ok,
            final(self).wf(),
            final(self).ids() == old(self).ids(),
            final(self).edges() == old(self).edges(),
            final(self).soft_failed_set() == old(self).soft_failed_set(),
            final(self).referenced_set() == old(self).referenced_set().union(
                marked_pairs(room_id@, event_ids@),
            ),
    {
        let ghost start = *self;
        let mut k: usize = 0;
        while k < event_ids.len()
            invariant
                k <= event_ids@.len(),
                self.wf(),
                self.ids() == start.ids(),
                self.edges() == start.edges(),
                self.soft_failed_set() == start.soft_failed_set(),
                self.referenced_set() == start.referenced_set().union(
                    marked_pairs(room_id@, event_ids@.subrange(0, k as int)),
                ),
            decreases event_ids@.len() - k,
        {
            let ghost before = self.referenced@;
            let ghost set_before = self.referenced_set();
            if !self.is_event_referenced(room_id, &event_ids[k]) {
                self.referenced.push((room_id.clone(), event_ids[k].clone()));
                proof {
                    assert(self.referenced@[before.len() as int] == (*room_id, event_ids@[k as int]));
                    assert forall|j: int| 0 <= j < before.len() implies #[trigger] self.referenced@[j] == before[j] by {}
                }
            }
            proof {
                let e = event_ids@[k as int]@;
                assert(self.referenced_set() =~= set_before.insert((room_id@, e))) by {
                    if self.referenced@.len() > before.len() {
                        assert(self.referenced@[before.len() as int].0@ == room_id@);
                        assert(self.referenced@[before.len() as int].1@ == e);
                        assert forall|p: (Seq<char>, Seq<char>)| #[trigger] set_before.contains(p) implies self.referenced_set().contains(p) by {
                            let j = choose|j: int| 0 <= j < before.len() && #[trigger] before[j].0@ == p.0 && before[j].1@ == p.1;
                            assert(self.referenced@[j].0@ == p.0);
                        }
                    }
                }
                assert(marked_pairs(room_id@, event_ids@.subrange(0, k as int + 1)) =~= marked_pairs(
                    room_id@,
                    event_ids@.subrange(0, k as int),
                ).insert((room_id@, e))) by {
                    let sub = event_ids@.subrange(0, k as int + 1);
                    assert(sub[k as int]@ == e);
                    assert forall|p: (Seq<char>, Seq<char>)| #[trigger] marked_pairs(room_id@, sub).contains(p)
                        implies marked_pairs(room_id@, event_ids@.subrange(0, k as int)).insert((room_id@, e)).contains(p) by {
                        let i = choose|i: int| 0 <= i < sub.len() && #[trigger] sub[i]@ == p.1;
                        if i < k {
                            assert(event_ids@.subrange(0, k as int)[i]@ == p.1);
                        }
                    }
                    assert forall|p: (Seq<char>, Seq<char>)| #[trigger] marked_pairs(room_id@, event_ids@.subrange(0, k as int)).contains(p)
                        implies marked_pairs(room_id@, sub).contains(p) by {
                        let i = choose|i: int| 0 <= i < k && #[trigger] event_ids@.subrange(0, k as int)[i]@ == p.1;
                        assert(sub[i]@ == p.1);
                    }
                }
            }
            k = k + 1;
        }
        proof {
            assert(event_ids@.subrange(0, event_ids@.len() as int) =~= event_ids@);
        }
        Ok(())
    }

    /// Whether `event_id` is marked soft-failed.
    pub fn is_event_soft_failed(&self, event_id: &String) -> (r: bool)
        ensures
            r == self.soft_failed_set().contains(event_id@),
    {
        let mut i: usize = 0;
        while i < self.soft_failed.len()
            invariant
                i <= self.soft_failed@.len(),
                forall|j: int| 0 <= j < i ==> #[trigger] self.soft_failed@[j]@ != event_id@,
            decreases self.soft_failed@.len() - i,
        {
            if self.soft_failed[i] == *event_id {
                return true;
            }
            i = i + 1;
        }
        false
    }

    /// Marks `event_id` soft-failed; the referenced marks stay as they were.
    pub fn mark_event_soft_failed(&mut self, event_id: &String) -> (r: Result<(), Error>)
        requires
            old(self).wf(),
        ensures
            r is Ok,
            final(self).wf(),
            final(self).ids() == old(self).ids(),
            final(self).edges() == old(self).edges(),
            final(self).referenced_set() == old(self).referenced_set(),
            final(self).soft_failed_set() == old(self).soft_failed_set().insert(event_id@),
    {
        let ghost set_before = self.soft_failed_set();
        let ghost before = self.soft_failed@;
        if !self.is_event_soft_failed(event_id) {
            self.soft_failed.push(event_id.clone());
            proof {
                assert(self.soft_failed@[before.len() as int]@ == event_id@);
                assert forall|e: Seq<char>| #[trigger] set_before.contains(e) implies self.soft_failed_set().contains(e) by {
                    let j = choose|j: int| 0 <= j < before.len() && #[trigger] before[j]@ == e;
                    assert(self.soft_failed@[j]@ == e);
                }
            }
        }
        assert(self.soft_failed_set() =~= set_before.insert(event_id@));
        Ok(())
    }

    proof fn lemma_short_id(&self, e: Seq<char>, id: int)
        requires
            self.ids().no_duplicates(),
            0 <= id < self.ids().len(),
            self.ids()[id] == e,
        ensures
            self.short_id(e) == id,
    {
        assert(self.ids().contains(e));
    }
}

/// After `event_ids` are marked in `room`, each of them is referenced in
/// `room`, whatever was marked before.
pub proof fn lemma_marked_events_are_referenced(
    before: Set<(Seq<char>, Seq<char>)>,
    room: Seq<char>,
    event_ids: Seq<String>,
    i: int,
)
    requires
        0 <= i < event_ids.len(),
    ensures
        before.union(marked_pairs(room, event_ids)).contains((room, event_ids[i]@)),
{
    assert(marked_pairs(room, event_ids).contains((room, event_ids[i]@)));
}

/// Soft-failing an event makes it soft-failed and leaves every referenced
/// mark as it was.
pub proof fn lemma_soft_fail_is_independent(s: Service, t: Service, e: Seq<char>, room: Seq<char>)
    requires
        t.soft_failed_set() == s.soft_failed_set().insert(e),
        t.referenced_set() == s.referenced_set(),
    ensures
        t.soft_failed_set().contains(e),
        t.referenced_set().contains((room, e)) == s.referenced_set().contains((room, e)),
{
}

/// Recording an edge a second time leaves the edges as the first time did.
pub proof fn lemma_edge_insert_idempotent(edges: Set<(u64, u64)>, e: (u64, u64))
    ensures
        edges.insert(e).insert(e) == edges.insert(e),
{
    assert(edges.insert(e).insert(e) =~= edges.insert(e));
}

} // verus!
