//! A deduplicating table: it gives every distinct location a small integer,
//! the same one each time it is asked, and gives the location back for the
//! integer.

use vstd::prelude::*;
use crate::location::{ItemLoc, MacroCallId, MacroCallLoc};

verus! {

/// An id that a table gives out: a small integer under a type of its own,
/// so that ids of different kinds cannot be taken for each other even
/// where their integers are the same.
pub trait InternKey: Copy {
    /// The integer behind the id.
    spec fn index(self) -> nat;

    /// The id with integer `v`.
    fn from_intern_id(v: u32) -> (id: Self)
        ensures
            id.index() == v,
    ;

    /// The integer behind the id.
    fn as_intern_id(&self) -> (v: u32)
        ensures
            v == self.index(),
    ;
}

/// A value that a table can hold: it can be copied, and compared with
/// another of its kind.
pub trait Location: Copy {
    /// Whether the two locations are the same one.
    fn same(&self, other: &Self) -> (b: bool)
        ensures
            b == (*self == *other),
    ;
}

impl InternKey for MacroCallId {
    open spec fn index(self) -> nat {
        self.0 as nat
    }

    fn from_intern_id(v: u32) -> (id: Self) {
        MacroCallId(v)
    }

    fn as_intern_id(&self) -> (v: u32) {
        self.0
    }
}

impl Location for MacroCallLoc {
    fn same(&self, other: &Self) -> (b: bool) {
        *self == *other
    }
}

impl Location for ItemLoc {
    fn same(&self, other: &Self) -> (b: bool) {
        *self == *other
    }
}

/// The table after `loc` was asked for: unchanged if it holds `loc`, else
/// with `loc` as its new last entry.
pub open spec fn interned<L>(table: Seq<L>, loc: L) -> Seq<L> {
    if table.contains(loc) {
        table
    } else {
        table.push(loc)
    }
}

/// The id that `loc` has in `table`: the index at which it stands. It
/// means something only for a location that the table holds.
pub open spec fn id_of<L>(table: Seq<L>, loc: L) -> int {
    table.index_of(loc)
}

/// Whether `table` has room for `loc`: it holds it already, or the next
/// free index still fits an id.
pub open spec fn has_room<L>(table: Seq<L>, loc: L) -> bool {
    table.contains(loc) || table.len() < u32::MAX
}

/// In a table without duplicates, the index at which a location stands is
/// its id.
pub proof fn lemma_id_of<L>(table: Seq<L>, loc: L, i: int)
    requires
        table.no_duplicates(),
        0 <= i < table.len(),
        table[i] == loc,
    ensures
        id_of(table, loc) == i,
{
}

/// The locations seen so far, each at the index that is its id.
///
/// Entries are never removed or changed, so an id stays good for as long
/// as the table lives.
pub struct Interner<L> {
    locs: Vec<L>,
}

impl<L> View for Interner<L> {
    type V = Seq<L>;

    closed spec fn view(&self) -> Seq<L> {
        self.locs@
    }
}

impl<L: Location> Interner<L> {
    /// No location occurs twice, and every index fits an id.
    pub open spec fn wf(&self) -> bool {
        &&& self@.no_duplicates()
        &&& self@.len() <= u32::MAX
    }

    /// A table with no entries.
    pub fn new() -> (table: Self)
        ensures
            table.wf(),
            table@ == Seq::<L>::empty(),
    {
        Interner { locs: Vec::new() }
    }

    /// The number of locations in the table.
    pub fn len(&self) -> (n: usize)
        ensures
            n == self@.len(),
    {
        self.locs.len()
    }

    /// The id of `loc`, if the table holds it.
    pub fn find(&self, loc: &L) -> (found: Option<u32>)
        requires
            self.wf(),
        ensures
            found is None <==> !self@.contains(*loc),
            found matches Some(id) ==> id == id_of(self@, *loc),
            found matches Some(id) ==> id < self@.len() && self@[id as int] == *loc,
    {
        let mut i: usize = 0;
        while i < self.locs.len()
            invariant
                i <= self.locs.len(),
                self.wf(),
                forall|j: int| 0 <= j < i ==> self.locs@[j] != *loc,
            decreases self.locs.len() - i,
        {
            if self.locs[i].same(loc) {
                proof {
                    lemma_id_of(self@, *loc, i as int);
                }
                return Some(i as u32);
            }
            i += 1;
        }
        None
    }

    /// The id of `loc`. A location that the table has not seen is added
    /// at its end; one that it has seen keeps the id it got then.
    pub fn intern(&mut self, loc: L) -> (id: u32)
        requires
            old(self).wf(),
            has_room(old(self)@, loc),
        ensures
            final(self).wf(),
            final(self)@ == interned(old(self)@, loc),
            id == id_of(final(self)@, loc),
            id < final(self)@.len(),
            final(self)@[id as int] == loc,
            old(self)@.contains(loc) ==> id == id_of(old(self)@, loc),
            !old(self)@.contains(loc) ==> id == old(self)@.len() && final(self)@.len() == old(
                self,
            )@.len() + 1,
    {
        match self.find(&loc) {
            Some(id) => id,
            None => {
                let id: u32 = self.locs.len() as u32;
                self.locs.push(loc);
                proof {
                    lemma_id_of(self@, loc, id as int);
                }
                id
            },
        }
    }

    /// The location that `id` stands for.
    pub fn lookup(&self, id: u32) -> (loc: L)
        requires
            id < self@.len(),
        ensures
            loc == self@[id as int],
    {
        self.locs[id as usize]
    }

    /// Whether `id` was given out by this table.
    pub fn contains_id(&self, id: u32) -> (known: bool)
        ensures
            known == (id < self@.len()),
    {
        (id as usize) < self.locs.len()
    }
}

} // verus!
