//! The string table: a placeholder pool for literal string data. It is
//! kept so the container has its expected chunk slot, and it serializes as
//! an empty payload.

use vstd::prelude::*;

use crate::chunk::chunk_encoding;
use crate::chunk::encode_chunk;
use vstd::utf8::is_ascii_chars;

verus! {

/// The (currently always empty) literal-string pool of one module.
#[derive(Debug)]
pub struct StringTable {
    parent_module_name: String,
    strings: Vec<String>,
}

impl View for StringTable {
    type V = Seq<Seq<char>>;

    closed spec fn view(&self) -> Seq<Seq<char>> {
        Seq::new(self.strings@.len(), |i: int| self.strings@[i]@)
    }
}

impl StringTable {
    /// The owning module's name, as recorded at construction.
    pub closed spec fn module_name(&self) -> Seq<char> {
        self.parent_module_name@
    }

    /// An empty pool for the named module.
    pub fn new(parent_module_name: String) -> (r: StringTable)
        ensures
            r@ == Seq::<Seq<char>>::empty(),
            r.module_name() == parent_module_name@,
    {
        let r = StringTable { parent_module_name, strings: Vec::new() };
        proof {
            assert(r@ =~= Seq::<Seq<char>>::empty());
        }
        r
    }

    /// Serializes the pool's chunk. The payload is empty: the pool is a
    /// structural placeholder.
    pub fn encode(&self) -> (r: Vec<u8>)
        ensures
            r@ == chunk_encoding("StrT"@, Seq::<u8>::empty()),
    {
        let mut payload: Vec<u8> = Vec::new();
        proof {
            assert(payload@ =~= Seq::<u8>::empty());
            reveal_strlit("StrT");
            assert(is_ascii_chars("StrT"@));
        }
        encode_chunk("StrT", &mut payload)
    }
}

} // verus!
