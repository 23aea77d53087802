//! One value per chunk, found by the chunk's coordinates.

pub mod order;
pub mod size;

use std::collections::BTreeMap;
use vstd::prelude::*;
use vstd::std_specs::iter::IteratorSpec;
use crate::world::chunk::order::{ascending, lemma_increasing_is_ascending, lemma_keys_are_ordered};

verus! {

/// Whether the entries are the chunks of the map, each once, in ascending
/// order of their positions.
pub open spec fn lists<T>(
    entries: Seq<((i32, i32, i32), T)>,
    chunks: Map<(i32, i32, i32), T>,
) -> bool {
    &&& entries.len() == chunks.len()
    &&& forall|i: int|
        0 <= i < entries.len() ==> chunks.contains_key((#[trigger] entries[i]).0)
            && chunks[entries[i].0] == entries[i].1
    &&& ascending(entries.map_values(|entry: ((i32, i32, i32), T)| entry.0))
}

/// `BTreeMap::get_mut` on a map of chunks: a mutable reference to the value
/// stored for the key, or `None` where the key is absent. What is written
/// through the reference becomes the value of that key; nothing else in the
/// map changes.
#[verifier::external_body]
fn chunk_mut<'a, T>(chunks: &'a mut BTreeMap<(i32, i32, i32), T>, key: &(i32, i32, i32)) -> (found:
    Option<&'a mut T>)
    ensures
        match found {
            Some(value) => old(chunks)@.contains_key(*key) && *value == old(chunks)@[*key]
                && final(chunks)@ == old(chunks)@.insert(*key, *final(value)),
            None => !old(chunks)@.contains_key(*key) && final(chunks)@ == old(chunks)@,
        },
{
    chunks.get_mut(key)
}

/// Holds at most one value for each chunk position.
pub struct ChunkArray<T> {
    chunks: BTreeMap<(i32, i32, i32), T>,
}

impl<T> View for ChunkArray<T> {
    type V = Map<(i32, i32, i32), T>;

    closed spec fn view(&self) -> Map<(i32, i32, i32), T> {
        self.chunks@
    }
}

impl<T> ChunkArray<T> {
    /// An array with no chunk in it.
    pub fn new() -> (array: Self)
        ensures
            array@ == Map::<(i32, i32, i32), T>::empty(),
    {
        ChunkArray { chunks: BTreeMap::new() }
    }

    /// The value of the chunk at the position, if there is one.
    pub fn get(&self, x: i32, y: i32, z: i32) -> (chunk: Option<&T>)
        ensures
            match chunk {
                Some(found) => self@.contains_key((x, y, z)) && *found == self@[(x, y, z)],
                None => !self@.contains_key((x, y, z)),
            },
    {
        proof {
            lemma_keys_are_ordered();
        }
        broadcast use vstd::std_specs::btree::group_btree_axioms;

        self.chunks.get(&(x, y, z))
    }

    /// Mutable access to the value of the chunk at the position, if there is
    /// one. What the caller writes becomes the chunk's value.
    pub fn get_mut(&mut self, x: i32, y: i32, z: i32) -> (chunk: Option<&mut T>)
        ensures
            match chunk {
                Some(found) => old(self)@.contains_key((x, y, z)) && *found == old(self)@[(
                    x,
                    y,
                    z,
                )] && final(self)@ == old(self)@.insert((x, y, z), *final(found)),
                None => !old(self)@.contains_key((x, y, z)) && final(self)@ == old(self)@,
            },
    {
        chunk_mut(&mut self.chunks, &(x, y, z))
    }

    /// Stores the value for a position that is still free.
    pub fn add(&mut self, chunk: T, x: i32, y: i32, z: i32)
        requires
            !old(self)@.contains_key((x, y, z)),
        ensures
            final(self)@ == old(self)@.insert((x, y, z), chunk),
    {
        let _ = self.try_add(chunk, x, y, z);
    }

    /// Stores the value for the position unless the position is taken; a
    /// taken position keeps its value.
    pub fn try_add(&mut self, chunk: T, x: i32, y: i32, z: i32) -> (added: Result<(), ()>)
        ensures
            match added {
                Ok(_) => !old(self)@.contains_key((x, y, z)) && final(self)@ == old(self)@.insert(
                    (x, y, z),
                    chunk,
                ),
                Err(_) => old(self)@.contains_key((x, y, z)) && final(self)@ == old(self)@,
            },
    {
        proof {
            lemma_keys_are_ordered();
        }
        broadcast use vstd::std_specs::btree::group_btree_axioms;

        let key = (x, y, z);
        if self.chunks.contains_key(&key) {
            Err(())
        } else {
            self.chunks.insert(key, chunk);
            Ok(())
        }
    }

    /// Walks the chunks in ascending order of their positions.
    pub fn iter<'a>(&'a self) -> (iter: Iter<'a, T>)
        ensures
            lists(iter@, self@),
    {
        Iter::new(self)
    }
}

/// A walk over the chunks of a [`ChunkArray`], in ascending order of their
/// positions.
pub struct Iter<'a, T> {
    entries: Vec<(&'a (i32, i32, i32), &'a T)>,
    position: usize,
}

impl<'a, T> View for Iter<'a, T> {
    type V = Seq<((i32, i32, i32), T)>;

    /// The entries that are still to come.
    closed spec fn view(&self) -> Seq<((i32, i32, i32), T)> {
        Seq::new(
            (self.entries@.len() - self.position) as nat,
            |i: int| (*self.entries@[self.position + i].0, *self.entries@[self.position + i].1),
        )
    }
}

impl<'a, T> Iter<'a, T> {
    #[verifier::type_invariant]
    spec fn well_formed(self) -> bool {
        self.position <= self.entries@.len()
    }

    fn new(chunk_array: &'a ChunkArray<T>) -> (iter: Iter<'a, T>)
        ensures
            lists(iter@, chunk_array@),
    {
        proof {
            lemma_keys_are_ordered();
        }
        broadcast use vstd::std_specs::btree::group_btree_axioms;

        let ghost all = vstd::std_specs::btree::spec_btree_map_iter(&chunk_array.chunks).remaining();
        let mut entries: Vec<(&'a (i32, i32, i32), &'a T)> = Vec::new();
        for entry in it: chunk_array.chunks.iter()
            invariant
                it.seq() == all,
                entries@ == all.take(it.index()),
        {
            entries.push(entry);
            assert(all.take(it.index() + 1) == all.take(it.index()).push(all[it.index()]));
        }
        assert(entries@ == all);
        let iter = Iter { entries, position: 0 };
        proof {
            let keys = all.map_values(|kv: (&(i32, i32, i32), &T)| *kv.0);
            lemma_increasing_is_ascending(keys);
            let listed = iter@.map_values(|entry: ((i32, i32, i32), T)| entry.0);
            assert(listed == keys);
        }
        iter
    }

    /// The next chunk of the walk, or `None` once all have been handed out.
    pub fn next(&mut self) -> (entry: Option<(&'a (i32, i32, i32), &'a T)>)
        ensures
            match entry {
                Some((key, value)) => old(self)@.len() > 0 && (*key, *value) == old(self)@[0]
                    && final(self)@ == old(self)@.skip(1),
                None => old(self)@.len() == 0 && final(self)@ == old(self)@,
            },
    {
        proof {
            use_type_invariant(&*self);
        }
        if self.position < self.entries.len() {
            let entry = self.entries[self.position];
            self.position = self.position + 1;
            Some(entry)
        } else {
            None
        }
    }

    /// How many chunks are still to come.
    pub fn len(&self) -> (remaining: usize)
        ensures
            remaining == self@.len(),
    {
        proof {
            use_type_invariant(self);
        }
        self.entries.len() - self.position
    }
}

} // verus!
