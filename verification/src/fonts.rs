//! The text encodings that the font resources of a page declare.

use vstd::prelude::*;
use crate::text::slice_eq;

verus! {

/// For one page, the encoding declared by each font resource, by the name
/// under which the content stream selects the font.
#[derive(Debug)]
pub struct FontEncodingTable {
    entries: Vec<(Vec<u8>, String)>,
}

/// The map that a list of entries stands for: a later entry replaces an
/// earlier one of the same name.
pub open spec fn entries_map(entries: Seq<(Seq<u8>, Seq<char>)>) -> Map<Seq<u8>, Seq<char>>
    decreases entries.len(),
{
    if entries.len() == 0 {
        Map::empty()
    } else {
        entries_map(entries.drop_last()).insert(entries.last().0, entries.last().1)
    }
}

impl FontEncodingTable {
    /// The entries in the order in which they were added.
    pub closed spec fn entries(&self) -> Seq<(Seq<u8>, Seq<char>)> {
        Seq::new(self.entries.len() as nat, |i: int| (self.entries[i].0@, self.entries[i].1@))
    }

    /// A table without fonts.
    pub fn new() -> (table: FontEncodingTable)
        ensures
            table@ == Map::<Seq<u8>, Seq<char>>::empty(),
    {
        let table = FontEncodingTable { entries: Vec::new() };
        assert(table.entries() =~= Seq::empty());
        table
    }

    /// Declares `encoding` for the font `name`, in place of what was declared
    /// for it before.
    pub fn insert(&mut self, name: Vec<u8>, encoding: String)
        ensures
            final(self)@ == old(self)@.insert(name@, encoding@),
    {
        let ghost before = self.entries();
        let ghost entry = (name@, encoding@);
        self.entries.push((name, encoding));
        assert(self.entries() =~= before.push(entry));
        assert(self.entries().drop_last() =~= before);
    }

    /// The encoding declared for the font `name`, if the page has such a font.
    pub fn get(&self, name: &[u8]) -> (encoding: Option<&str>)
        ensures
            match encoding {
                Some(e) => self@.contains_key(name@) && self@[name@] == e@,
                None => !self@.contains_key(name@),
            },
    {
        let mut i: usize = self.entries.len();
        assert(self.entries().take(i as int) =~= self.entries());
        while i > 0
            invariant
                i <= self.entries.len(),
                self@.contains_key(name@) <==> entries_map(self.entries().take(i as int)).contains_key(name@),
                self@.contains_key(name@) ==> self@[name@] == entries_map(self.entries().take(i as int))[name@],
            decreases i,
        {
            proof {
                let head = self.entries().take(i as int);
                assert(head.drop_last() =~= self.entries().take(i - 1));
                assert(head.last() == self.entries()[i - 1]);
            }
            i -= 1;
            if slice_eq(self.entries[i].0.as_slice(), name) {
                return Some(self.entries[i].1.as_str());
            }
        }
        assert(self.entries().take(0) =~= Seq::empty());
        None
    }
}

impl View for FontEncodingTable {
    type V = Map<Seq<u8>, Seq<char>>;

    closed spec fn view(&self) -> Map<Seq<u8>, Seq<char>> {
        entries_map(self.entries())
    }
}

} // verus!
