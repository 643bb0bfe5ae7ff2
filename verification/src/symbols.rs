//! The symbol table of the assembler: labels and the addresses they stand for.

use vstd::prelude::*;
use crate::text::chars_of;

verus! {

/// Labels with their addresses, in the order in which they were defined. A
/// label that is defined again stands for its latest address.
pub struct SymbolTable {
    pub entries: Vec<(Vec<char>, u32)>,
}

/// The map that a list of definitions amounts to: later ones override.
pub open spec fn table_of(entries: Seq<(Vec<char>, u32)>) -> Map<Seq<char>, u32>
    decreases entries.len(),
{
    if entries.len() == 0 {
        Map::empty()
    } else {
        table_of(entries.drop_last()).insert(entries.last().0@, entries.last().1)
    }
}

impl View for SymbolTable {
    type V = Map<Seq<char>, u32>;

    open spec fn view(&self) -> Map<Seq<char>, u32> {
        table_of(self.entries@)
    }
}

/// What a table says of a label: its address, or nothing.
pub open spec fn address_of(table: Map<Seq<char>, u32>, label: Seq<char>) -> Option<u32> {
    if table.contains_key(label) {
        Some(table[label])
    } else {
        None
    }
}

/// Whether `label` is the text from `from` up to `to`.
fn same_chars(label: &Vec<char>, text: &Vec<char>, from: usize, to: usize) -> (same: bool)
    requires
        from <= to <= text@.len(),
    ensures
        same == (label@ == text@.subrange(from as int, to as int)),
{
    if label.len() != to - from {
        return false;
    }
    let mut i: usize = 0;
    while i < label.len()
        invariant
            from <= to <= text@.len(),
            label@.len() == to - from,
            i <= label@.len(),
            forall|j: int| 0 <= j < i ==> label@[j] == text@[from + j],
        decreases label@.len() - i,
    {
        if label[i] != text[from + i] {
            assert(text@.subrange(from as int, to as int)[i as int] == text@[from + i]);
            return false;
        }
        i = i + 1;
    }
    assert(label@ =~= text@.subrange(from as int, to as int));
    true
}

impl SymbolTable {
    /// A table without labels.
    pub fn new() -> (table: Self)
        ensures
            table@ == Map::<Seq<char>, u32>::empty(),
    {
        SymbolTable { entries: Vec::new() }
    }

    /// Defines `label` as `address`, whatever it stood for before.
    pub fn insert_chars(&mut self, label: Vec<char>, address: u32)
        ensures
            final(self)@ == old(self)@.insert(label@, address),
    {
        let ghost key = label@;
        self.entries.push((label, address));
        assert(self.entries@.drop_last() =~= old(self).entries@);
    }

    /// Defines `label` as `address`, whatever it stood for before.
    pub fn insert(&mut self, label: &str, address: u32)
        ensures
            final(self)@ == old(self)@.insert(label@, address),
    {
        self.insert_chars(chars_of(label), address);
    }

    /// The address of the label that is the text from `from` up to `to`.
    pub fn get_range(&self, text: &Vec<char>, from: usize, to: usize) -> (address: Option<u32>)
        requires
            from <= to <= text@.len(),
        ensures
            address == address_of(self@, text@.subrange(from as int, to as int)),
    {
        let ghost key = text@.subrange(from as int, to as int);
        let mut i: usize = self.entries.len();
        assert(self.entries@.take(i as int) =~= self.entries@);
        while i > 0
            invariant
                from <= to <= text@.len(),
                key == text@.subrange(from as int, to as int),
                i <= self.entries@.len(),
                address_of(self@, key) == address_of(table_of(self.entries@.take(i as int)), key),
            decreases i,
        {
            i = i - 1;
            let ghost shorter = self.entries@.take(i as int);
            assert(self.entries@.take(i + 1).drop_last() =~= shorter);
            assert(self.entries@.take(i + 1).last() == self.entries@[i as int]);
            if same_chars(&self.entries[i].0, text, from, to) {
                return Some(self.entries[i].1);
            }
        }
        assert(self.entries@.take(0) =~= Seq::<(Vec<char>, u32)>::empty());
        None
    }

    /// The address of `label`, if it is defined.
    pub fn get(&self, label: &str) -> (address: Option<u32>)
        ensures
            address == address_of(self@, label@),
    {
        let text = chars_of(label);
        assert(text@.subrange(0, text@.len() as int) =~= text@);
        self.get_range(&text, 0, text.len())
    }
}

} // verus!
