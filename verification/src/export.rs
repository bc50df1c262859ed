//! The export table: one (function atom, arity, entry label) row per
//! finished function. Rows are appended exactly when a function's build
//! completes, since the entry label is not known earlier.

use vstd::prelude::*;

use crate::atom::Atom;
use crate::bytes::be32;
use crate::bytes::push_be32;
use crate::chunk::chunk_encoding;
use crate::chunk::encode_chunk;
use vstd::utf8::is_ascii_chars;

verus! {

/// One exported function: its atom, its arity, and the label where its
/// executable code begins.
#[derive(Debug)]
pub struct Export {
    pub function: Atom,
    pub arity: u32,
    pub label_id: u32,
}

impl View for Export {
    type V = ((Seq<char>, u32), u32, u32);

    open spec fn view(&self) -> ((Seq<char>, u32), u32, u32) {
        (self.function@, self.arity, self.label_id)
    }
}

impl Export {
    /// Packs one export row.
    pub fn new(function: Atom, arity: u32, label_id: u32) -> (r: Export)
        ensures
            r@ == (function@, arity, label_id),
    {
        Export { function, arity, label_id }
    }
}

/// The wire record of one export row: the one-based function atom
/// reference, the arity, and the entry label, each as four big-endian
/// bytes.
pub open spec fn export_record(e: ((Seq<char>, u32), u32, u32)) -> Seq<u8> {
    be32((e.0.1 + 1) as u32) + be32(e.1) + be32(e.2)
}

/// The concatenated records of every row, in table order.
pub open spec fn export_records(t: Seq<((Seq<char>, u32), u32, u32)>) -> Seq<u8>
    decreases t.len(),
{
    if t.len() == 0 {
        Seq::empty()
    } else {
        export_records(t.drop_last()) + export_record(t.last())
    }
}

/// The export chunk's payload: a big-endian row count, then the records.
pub open spec fn exports_payload(t: Seq<((Seq<char>, u32), u32, u32)>) -> Seq<u8> {
    be32(t.len() as u32) + export_records(t)
}

/// The append-only list of a module's exported functions.
#[derive(Debug)]
pub struct ExportTable {
    parent_module_name: String,
    exports: Vec<Export>,
}

impl View for ExportTable {
    type V = Seq<((Seq<char>, u32), u32, u32)>;

    closed spec fn view(&self) -> Seq<((Seq<char>, u32), u32, u32)> {
        Seq::new(self.exports@.len(), |i: int| self.exports@[i]@)
    }
}

impl ExportTable {
    /// The owning module's name, as recorded at construction.
    pub closed spec fn module_name(&self) -> Seq<char> {
        self.parent_module_name@
    }

    /// Every row's atom reference and the row count stay encodable.
    pub open spec fn wf(&self) -> bool {
        &&& self@.len() <= u32::MAX
        &&& forall|i: int| 0 <= i < self@.len() ==> (#[trigger] self@[i]).0.1 < u32::MAX
    }

    /// An empty table for the named module.
    pub fn new(parent_module_name: String) -> (r: ExportTable)
        ensures
            r@ == Seq::<((Seq<char>, u32), u32, u32)>::empty(),
            r.module_name() == parent_module_name@,
            r.wf(),
    {
        let r = ExportTable { parent_module_name, exports: Vec::new() };
        proof {
            assert(r@ =~= Seq::<((Seq<char>, u32), u32, u32)>::empty());
        }
        r
    }

    /// Appends one finished function's row.
    pub fn export_function(&mut self, function: Export)
        requires
            old(self)@.len() < u32::MAX,
        ensures
            final(self)@ == old(self)@.push(function@),
            final(self).module_name() == old(self).module_name(),
            old(self).wf() && function@.0.1 < u32::MAX ==> final(self).wf(),
    {
        let ghost fv = function@;
        self.exports.push(function);
        proof {
            assert(self@ =~= old(self)@.push(fv));
        }
    }

    /// Serializes the table as its chunk: a row count, then each row's
    /// one-based function atom reference, arity and entry label.
    pub fn encode(&self) -> (r: Vec<u8>)
        requires
            self.wf(),
            exports_payload(self@).len() + 3 <= u32::MAX,
        ensures
            r@ == chunk_encoding("ExpT"@, exports_payload(self@)),
    {
        let mut payload: Vec<u8> = Vec::new();
        push_be32(&mut payload, self.exports.len() as u32);
        let mut i: usize = 0;
        while i < self.exports.len()
            invariant
                self.wf(),
                i <= self@.len(),
                self@.len() == self.exports@.len(),
                payload@ == be32(self@.len() as u32) + export_records(self@.take(i as int)),
            decreases self@.len() - i,
        {
            let e = &self.exports[i];
            proof {
                assert(self@[i as int] == self.exports@[i as int]@);
            }
            push_be32(&mut payload, e.function.index + 1);
            push_be32(&mut payload, e.arity);
            push_be32(&mut payload, e.label_id);
            proof {
                assert(self@.take(i + 1).drop_last() =~= self@.take(i as int));
                assert(self@.take(i + 1).last() == self@[i as int]);
                assert(payload@ =~= be32(self@.len() as u32) + export_records(
                    self@.take(i + 1),
                ));
            }
            i = i + 1;
        }
        proof {
            assert(self@.take(self@.len() as int) =~= self@);
            reveal_strlit("ExpT");
            assert(is_ascii_chars("ExpT"@));
        }
        encode_chunk("ExpT", &mut payload)
    }
}

} // verus!
