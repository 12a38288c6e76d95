//! The scratch of a workflow: headers and entries that are staged in memory
//! and not yet persisted.

use vstd::prelude::*;
use crate::element::EntryHashed;
use crate::element::SignedHeaderHashed;
use crate::element::SignedHeaderHashedView;
use crate::entry::Entry;
use crate::entry::EntryView;
use crate::hash::EntryHash;
use crate::hash::HoloHash;
use crate::ord_map::OrdMap;

verus! {

/// Staged headers, in the order in which they were added, and staged
/// entries, by address.
#[derive(Debug, PartialEq, Eq)]
pub struct Scratch {
    headers: Vec<SignedHeaderHashed>,
    entries: OrdMap<HoloHash, Entry>,
}

pub ghost struct ScratchView {
    pub headers: Seq<SignedHeaderHashedView>,
    pub entries: Map<Seq<u8>, EntryView>,
}

impl View for Scratch {
    type V = ScratchView;

    closed spec fn view(&self) -> ScratchView {
        ScratchView {
            headers: self.headers.deep_view(),
            entries: Map::new(
                |k: Seq<u8>| self.entries@.contains_key(k),
                |k: Seq<u8>| self.entries@[k]@,
            ),
        }
    }
}

impl Scratch {
    /// The entries are held in ascending order of their addresses.
    pub closed spec fn well_formed(&self) -> bool {
        self.entries.well_formed()
    }

    /// The scratch in which nothing is staged.
    pub fn new() -> (scratch: Self)
        ensures
            scratch.well_formed(),
            scratch@ == (ScratchView { headers: Seq::empty(), entries: Map::empty() }),
    {
        let scratch = Scratch { headers: Vec::new(), entries: OrdMap::new() };
        assert(scratch@.headers =~= Seq::<SignedHeaderHashedView>::empty());
        assert(scratch@.entries =~= Map::<Seq<u8>, EntryView>::empty());
        scratch
    }

    /// Stages a header after those staged so far.
    pub fn add_header(&mut self, header: SignedHeaderHashed)
        requires
            old(self).well_formed(),
        ensures
            final(self).well_formed(),
            final(self)@ == (ScratchView {
                headers: old(self)@.headers.push(header@),
                ..old(self)@
            }),
    {
        self.headers.push(header);
        assert(self@.headers =~= old(self)@.headers.push(header@));
        assert(self@.entries =~= old(self)@.entries);
    }

    /// Stages an entry under its address, in place of an entry staged there before.
    pub fn add_entry(&mut self, entry: EntryHashed)
        requires
            old(self).well_formed(),
        ensures
            final(self).well_formed(),
            final(self)@ == (ScratchView {
                entries: old(self)@.entries.insert(entry@.hash, entry@.content),
                ..old(self)@
            }),
    {
        let (content, hash) = entry.into_inner();
        self.entries.insert(hash, content);
        assert(self@.entries =~= old(self)@.entries.insert(entry@.hash, entry@.content));
        assert(self@.headers =~= old(self)@.headers);
    }

    /// How many headers are staged.
    pub fn num_headers(&self) -> (n: usize)
        ensures
            n == self@.headers.len(),
    {
        self.headers.len()
    }

    /// The staged header at a position.
    pub fn header_at(&self, i: usize) -> (header: &SignedHeaderHashed)
        requires
            i < self@.headers.len(),
        ensures
            header@ == self@.headers[i as int],
    {
        &self.headers[i]
    }

    /// The entry staged under an address, if there is one.
    pub fn entry(&self, hash: &EntryHash) -> (entry: Option<&Entry>)
        requires
            self.well_formed(),
        ensures
            match entry {
                Some(e) => self@.entries.contains_key(hash@) && e@ == self@.entries[hash@],
                None => !self@.entries.contains_key(hash@),
            },
    {
        self.entries.get(hash)
    }
}

} // verus!
