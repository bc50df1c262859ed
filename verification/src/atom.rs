//! The atom table: a registry of names with stable, insertion-ordered
//! indices. Index 0 always holds the owning module's name; every later
//! entry keeps the index it was assigned when it was interned, and the
//! table never shrinks.
//!
//! Names are ASCII and shorter than 256 bytes, so that each fits the
//! length-prefixed record of the table's chunk.

use vstd::prelude::*;

use crate::bytes::ascii_bytes;
use crate::bytes::be32;
use crate::bytes::push_ascii;
use crate::bytes::push_be32;
use crate::chunk::chunk_encoding;
use crate::chunk::encode_chunk;
use crate::search::first_match;
use crate::search::str_eq_chars;
use vstd::string::StrSliceExecFns;
use vstd::utf8::is_ascii_chars;

verus! {

/// An interned name together with the index the table assigned to it.
/// Atoms are cheap values: tables hand out copies, never live references,
/// so later table growth cannot change an already-captured entry.
#[derive(Debug, Clone, PartialEq, Eq, Hash)]
pub struct Atom {
    pub name: String,
    pub index: u32,
}

impl View for Atom {
    type V = (Seq<char>, u32);

    open spec fn view(&self) -> (Seq<char>, u32) {
        (self.name@, self.index)
    }
}

/// A name acceptable to the table: ASCII and short enough for the
/// length-prefixed atom record.
pub open spec fn valid_name(name: Seq<char>) -> bool {
    is_ascii_chars(name) && name.len() < 256
}

/// Position of the first entry named `name`, or -1 when none is.
pub open spec fn find_name(t: Seq<(Seq<char>, u32)>, name: Seq<char>) -> int {
    first_match(t, |e: (Seq<char>, u32)| e.0 == name)
}

/// If position `i` holds the first entry named `name`, `find_name` is `i`.
pub proof fn lemma_find_name_is(t: Seq<(Seq<char>, u32)>, name: Seq<char>, i: int)
    requires
        0 <= i < t.len(),
        t[i].0 == name,
        forall|j: int| 0 <= j < i ==> (#[trigger] t[j]).0 != name,
    ensures
        find_name(t, name) == i,
    decreases i,
{
    if i > 0 {
        assert(t.drop_first()[i - 1] == t[i]);
        assert forall|j: int| 0 <= j < i - 1 implies (#[trigger] t.drop_first()[j]).0 != name by {
            assert(t.drop_first()[j] == t[j + 1]);
        }
        lemma_find_name_is(t.drop_first(), name, i - 1);
    }
}

/// If no entry is named `name`, `find_name` is -1.
pub proof fn lemma_find_name_none(t: Seq<(Seq<char>, u32)>, name: Seq<char>)
    requires
        forall|j: int| 0 <= j < t.len() ==> (#[trigger] t[j]).0 != name,
    ensures
        find_name(t, name) == -1,
    decreases t.len(),
{
    if t.len() > 0 {
        assert forall|j: int| 0 <= j < t.drop_first().len() implies (#[trigger] t.drop_first()[j]).0
            != name by {
            assert(t.drop_first()[j] == t[j + 1]);
        }
        lemma_find_name_none(t.drop_first(), name);
    }
}

/// The table after appending a fresh entry for `name`.
pub open spec fn table_add(t: Seq<(Seq<char>, u32)>, name: Seq<char>) -> Seq<(Seq<char>, u32)> {
    t.push((name, t.len() as u32))
}

/// The table after interning `name`: unchanged when the name is already
/// present, extended otherwise.
pub open spec fn table_get(t: Seq<(Seq<char>, u32)>, name: Seq<char>) -> Seq<(Seq<char>, u32)> {
    if find_name(t, name) >= 0 {
        t
    } else {
        table_add(t, name)
    }
}

/// The entry `get` hands back when interning `name` into table `t`: the
/// existing first entry with that name, or the freshly appended one.
pub open spec fn got_atom(t: Seq<(Seq<char>, u32)>, name: Seq<char>) -> (Seq<char>, u32) {
    if find_name(t, name) >= 0 {
        t[find_name(t, name)]
    } else {
        (name, t.len() as u32)
    }
}

/// The atom-chunk record of one name: a length byte, then the name's bytes.
pub open spec fn atom_record(name: Seq<char>) -> Seq<u8> {
    seq![name.len() as u8] + ascii_bytes(name)
}

/// The concatenated records of every entry, in table order.
pub open spec fn atom_records(t: Seq<(Seq<char>, u32)>) -> Seq<u8>
    decreases t.len(),
{
    if t.len() == 0 {
        Seq::empty()
    } else {
        atom_records(t.drop_last()) + atom_record(t.last().0)
    }
}

/// The atom chunk's payload: a big-endian entry count, then the records.
pub open spec fn atoms_payload(t: Seq<(Seq<char>, u32)>) -> Seq<u8> {
    be32(t.len() as u32) + atom_records(t)
}

/// The registry of a module's interned names.
#[derive(Debug)]
pub struct AtomTable {
    atoms: Vec<Atom>,
}

impl View for AtomTable {
    type V = Seq<(Seq<char>, u32)>;

    closed spec fn view(&self) -> Seq<(Seq<char>, u32)> {
        Seq::new(self.atoms@.len(), |i: int| self.atoms@[i]@)
    }
}

impl AtomTable {
    /// Every entry's stored index equals its position, and every name can
    /// be encoded.
    pub open spec fn wf(&self) -> bool {
        &&& self@.len() <= u32::MAX
        &&& forall|i: int| 0 <= i < self@.len() ==> (#[trigger] self@[i]).1 == i
        &&& forall|i: int| 0 <= i < self@.len() ==> valid_name((#[trigger] self@[i]).0)
    }

    /// A fresh table whose sole entry, at index 0, is the owning module's
    /// name. (The table places the module name at index 0; there is no
    /// reserved leading entry.)
    pub fn new(module_name: String) -> (r: AtomTable)
        requires
            module_name.is_ascii(),
            module_name@.len() < 256,
        ensures
            r@ == seq![(module_name@, 0u32)],
            r.wf(),
    {
        let ghost n = module_name@;
        let atoms = vec![Atom { name: module_name, index: 0 }];
        let r = AtomTable { atoms };
        proof {
            assert(r@ =~= seq![(n, 0u32)]);
        }
        r
    }

    /// Appends a new entry for `atom` — always, even when the name is
    /// already present — and returns a copy of it.
    pub fn add(&mut self, atom: &str) -> (r: Atom)
        requires
            old(self)@.len() < u32::MAX,
            atom.is_ascii(),
            atom@.len() < 256,
        ensures
            final(self)@ == table_add(old(self)@, atom@),
            r@ == (atom@, old(self)@.len() as u32),
            old(self).wf() ==> final(self).wf(),
    {
        let index = self.atoms.len() as u32;
        self.atoms.push(Atom { name: atom.to_owned(), index });
        let r = Atom { name: atom.to_owned(), index };
        proof {
            assert(self@ =~= table_add(old(self)@, atom@));
        }
        r
    }

    /// Interns `atom`: returns the existing entry when the name is already
    /// present, otherwise appends one as `add` does.
    pub fn get(&mut self, atom: &str) -> (r: Atom)
        requires
            old(self).wf(),
            old(self)@.len() < u32::MAX,
            atom.is_ascii(),
            atom@.len() < 256,
        ensures
            final(self)@ == table_get(old(self)@, atom@),
            final(self).wf(),
            r@ == got_atom(old(self)@, atom@),
            r@.1 < u32::MAX,
    {
        let found = self.get_index(atom);
        match found {
            Some(index) => {
                proof {
                    let f = find_name(self@, atom@);
                    assert(self@[f].1 == f);
                    assert(index == f);
                }
                let a = self.get_by_index(index);
                Atom { name: a.name.clone(), index: a.index }
            },
            None => self.add(atom),
        }
    }

    /// Looks `atom` up without mutating; returns a copy of the first entry
    /// with that name, if any.
    pub fn find(&self, atom: &str) -> (r: Option<Atom>)
        ensures
            match r {
                Some(a) => 0 <= find_name(self@, atom@) < self@.len() && a@ == self@[find_name(
                    self@,
                    atom@,
                )],
                None => find_name(self@, atom@) == -1,
            },
    {
        let mut i: usize = 0;
        while i < self.atoms.len()
            invariant
                i <= self@.len(),
                self@.len() == self.atoms@.len(),
                forall|j: int| 0 <= j < i ==> (#[trigger] self@[j]).0 != atom@,
            decreases self@.len() - i,
        {
            let a = &self.atoms[i];
            proof {
                assert(self@[i as int] == self.atoms@[i as int]@);
            }
            if str_eq_chars(a.name.as_str(), atom) {
                proof {
                    lemma_find_name_is(self@, atom@, i as int);
                }
                return Some(Atom { name: a.name.clone(), index: a.index });
            }
            i = i + 1;
        }
        proof {
            lemma_find_name_none(self@, atom@);
        }
        None
    }

    /// Reads the entry at `index`. An out-of-range index is an internal
    /// consistency violation, never a user error, and is excluded here.
    pub fn get_by_index(&self, index: u32) -> (r: &Atom)
        requires
            index < self@.len(),
        ensures
            r@ == self@[index as int],
    {
        &self.atoms[index as usize]
    }

    /// The stored index of the first entry named `atom`, if any.
    pub fn get_index(&self, atom: &str) -> (r: Option<u32>)
        ensures
            match r {
                Some(index) => 0 <= find_name(self@, atom@) < self@.len() && index == self@[
                    find_name(self@, atom@)
                ].1,
                None => find_name(self@, atom@) == -1,
            },
    {
        let mut i: usize = 0;
        while i < self.atoms.len()
            invariant
                i <= self@.len(),
                self@.len() == self.atoms@.len(),
                forall|j: int| 0 <= j < i ==> (#[trigger] self@[j]).0 != atom@,
            decreases self@.len() - i,
        {
            let a = &self.atoms[i];
            proof {
                assert(self@[i as int] == self.atoms@[i as int]@);
            }
            if str_eq_chars(a.name.as_str(), atom) {
                proof {
                    lemma_find_name_is(self@, atom@, i as int);
                }
                return Some(a.index);
            }
            i = i + 1;
        }
        proof {
            lemma_find_name_none(self@, atom@);
        }
        None
    }

    /// Serializes the table as its chunk: an entry count, then each name as
    /// a length-prefixed byte string.
    pub fn encode(&self) -> (r: Vec<u8>)
        requires
            self.wf(),
            atoms_payload(self@).len() + 3 <= u32::MAX,
        ensures
            r@ == chunk_encoding("AtU8"@, atoms_payload(self@)),
    {
        let mut payload: Vec<u8> = Vec::new();
        push_be32(&mut payload, self.atoms.len() as u32);
        let mut i: usize = 0;
        while i < self.atoms.len()
            invariant
                self.wf(),
                i <= self@.len(),
                self@.len() == self.atoms@.len(),
                payload@ == be32(self@.len() as u32) + atom_records(self@.take(i as int)),
            decreases self@.len() - i,
        {
            let a = &self.atoms[i];
            proof {
                assert(self@[i as int] == self.atoms@[i as int]@);
                assert(valid_name(self@[i as int].0));
            }
            let s = a.name.as_str();
            let len = s.unicode_len();
            proof {
                assert(len < 256);
            }
            payload.push(len as u8);
            push_ascii(&mut payload, s);
            proof {
                assert(self@.take(i + 1).drop_last() =~= self@.take(i as int));
                assert(self@.take(i + 1).last() == self@[i as int]);
                assert(payload@ =~= be32(self@.len() as u32) + atom_records(
                    self@.take(i + 1),
                ));
            }
            i = i + 1;
        }
        proof {
            assert(self@.take(self@.len() as int) =~= self@);
            reveal_strlit("AtU8");
            assert(is_ascii_chars("AtU8"@));
        }
        encode_chunk("AtU8", &mut payload)
    }
}

/// Law: interning never disturbs the entry at index 0, so the module's
/// name, placed there at construction, stays there under any sequence of
/// `add` and `get` calls.
pub proof fn lemma_first_entry_stable(t: Seq<(Seq<char>, u32)>, name: Seq<char>)
    requires
        t.len() > 0,
    ensures
        table_add(t, name)[0] == t[0],
        table_get(t, name)[0] == t[0],
{
}

/// Law: in a well-formed table every entry's index equals its insertion
/// position, so distinct entries carry unique, strictly increasing indices;
/// and both `add` and `get` preserve this shape.
pub proof fn lemma_indices_are_positions(a: AtomTable, t: Seq<(Seq<char>, u32)>, name: Seq<char>)
    requires
        a.wf(),
        t.len() < u32::MAX,
        forall|i: int| 0 <= i < t.len() ==> (#[trigger] t[i]).1 == i,
    ensures
        forall|i: int| 0 <= i < a@.len() ==> (#[trigger] a@[i]).1 == i,
        forall|i: int, j: int| 0 <= i < j < a@.len() ==> a@[i].1 < a@[j].1,
        forall|i: int| 0 <= i < table_add(t, name).len() ==> (#[trigger] table_add(t, name)[i]).1
            == i,
        forall|i: int| 0 <= i < table_get(t, name).len() ==> (#[trigger] table_get(t, name)[i]).1
            == i,
{
}

/// Law: `get` on a name that is already present returns the existing entry
/// and leaves the table — every entry and its index — unchanged, creating
/// no duplicate.
pub proof fn lemma_get_existing_is_noop(t: Seq<(Seq<char>, u32)>, name: Seq<char>)
    requires
        find_name(t, name) >= 0,
    ensures
        table_get(t, name) == t,
{
}

} // verus!
