//! The module encoder: one object owning the atom, import, export and
//! string tables and the code generator, assembling the final container by
//! concatenating each table's chunk in the fixed order the loader expects:
//! atoms, imports, exports, strings, code — all wrapped once more as the
//! outer container chunk.

use vstd::prelude::*;

use crate::atom::AtomTable;
use crate::atom::atoms_payload;
use crate::bytes::ascii_bytes;
use crate::bytes::push_ascii;
use crate::bytes::push_bytes;
use crate::chunk::chunk_encoding;
use crate::chunk::encode_chunk;
use crate::code::Code;
use crate::code::code_payload;
use crate::export::ExportTable;
use crate::export::exports_payload;
use crate::import::ImportTable;
use crate::import::base_atoms;
use crate::import::base_imports;
use crate::import::imports_payload;
use crate::string_table::StringTable;
use vstd::string::StringExecFnsIsAscii;
use vstd::utf8::is_ascii_chars;

verus! {

/// One module under construction: its name, its four tables, and its code
/// generator, owned exclusively and mutated sequentially.
#[derive(Debug)]
pub struct Context {
    module_name: String,
    atom_table: AtomTable,
    import_table: ImportTable,
    export_table: ExportTable,
    string_table: StringTable,
    code: Code,
}

/// The payload of the outer container chunk: the format tag, then every
/// table's chunk in the fixed loader order.
pub open spec fn module_payload(c: &Context) -> Seq<u8> {
    ascii_bytes("BEAM"@) + chunk_encoding("AtU8"@, atoms_payload(c.spec_atoms()@))
        + chunk_encoding("ImpT"@, imports_payload(c.spec_imports()@)) + chunk_encoding(
        "ExpT"@,
        exports_payload(c.spec_exports()@),
    ) + chunk_encoding("StrT"@, Seq::<u8>::empty()) + chunk_encoding(
        "Code"@,
        code_payload(c.spec_code().labels(), c.spec_code().functions(), c.spec_code().stream()),
    )
}

/// The complete serialized module: the payload above wrapped as the outer
/// container chunk.
pub open spec fn module_encoding(c: &Context) -> Seq<u8> {
    chunk_encoding("FOR1"@, module_payload(c))
}

/// Every length that the serialization writes as a 32-bit field fits one.
pub open spec fn encodable(c: &Context) -> bool {
    &&& atoms_payload(c.spec_atoms()@).len() + 3 <= u32::MAX
    &&& imports_payload(c.spec_imports()@).len() + 3 <= u32::MAX
    &&& exports_payload(c.spec_exports()@).len() + 3 <= u32::MAX
    &&& c.spec_code().stream().len() + 24 <= u32::MAX
    &&& module_payload(c).len() + 3 <= u32::MAX
}

/// Law: serialization is a pure function of the module's state, so
/// serializing the same fully built module twice, without mutation in
/// between, produces byte-identical output.
pub proof fn lemma_encode_deterministic(c: &Context, r1: Seq<u8>, r2: Seq<u8>)
    requires
        r1 == module_encoding(c),
        r2 == module_encoding(c),
    ensures
        r1 == r2,
{
}

impl Context {
    /// The module's name.
    pub closed spec fn name(&self) -> Seq<char> {
        self.module_name@
    }

    /// The atom table.
    pub closed spec fn spec_atoms(&self) -> AtomTable {
        self.atom_table
    }

    /// The import table.
    pub closed spec fn spec_imports(&self) -> ImportTable {
        self.import_table
    }

    /// The export table.
    pub closed spec fn spec_exports(&self) -> ExportTable {
        self.export_table
    }

    /// The string table.
    pub closed spec fn spec_strings(&self) -> StringTable {
        self.string_table
    }

    /// The code generator.
    pub closed spec fn spec_code(&self) -> Code {
        self.code
    }

    /// The tables are well formed, each is keyed to this module, and the
    /// atom at index 0 is the module's name.
    pub open spec fn wf(&self) -> bool {
        &&& self.spec_atoms().wf()
        &&& self.spec_imports().wf()
        &&& self.spec_exports().wf()
        &&& self.spec_code().wf()
        &&& self.spec_code().module_name() == self.name()
        &&& self.spec_atoms()@.len() > 0
        &&& self.spec_atoms()@[0].0 == self.name()
    }

    /// A fresh module context: the atom table starts with the module's
    /// name at index 0, every other table starts empty, and label
    /// numbering starts at 1.
    pub fn new(module_name: String) -> (r: Context)
        requires
            module_name.is_ascii(),
            module_name@.len() < 256,
        ensures
            r.name() == module_name@,
            r.spec_atoms()@ == seq![(module_name@, 0u32)],
            r.spec_imports()@ == Seq::<((Seq<char>, u32), (Seq<char>, u32), u32)>::empty(),
            r.spec_exports()@ == Seq::<((Seq<char>, u32), u32, u32)>::empty(),
            r.spec_strings()@ == Seq::<Seq<char>>::empty(),
            r.spec_code().stream() == Seq::<u8>::empty(),
            r.spec_code().labels() == 1,
            r.spec_code().functions() == 0,
            r.wf(),
    {
        Context {
            atom_table: AtomTable::new(module_name.clone()),
            code: Code::new(module_name.clone()),
            import_table: ImportTable::new(module_name.clone()),
            export_table: ExportTable::new(module_name.clone()),
            string_table: StringTable::new(module_name.clone()),
            module_name,
        }
    }

    /// Registers the basic built-in functions in the import table,
    /// interning their atoms.
    pub fn add_basic_bif(&mut self)
        requires
            old(self).spec_atoms().wf(),
            old(self).spec_atoms()@.len() + 4 <= u32::MAX,
            old(self).spec_imports()@.len() + 2 <= u32::MAX,
        ensures
            final(self).spec_atoms()@ == base_atoms(old(self).spec_atoms()@),
            final(self).spec_atoms().wf(),
            final(self).spec_imports()@ == old(self).spec_imports()@ + base_imports(
                old(self).spec_atoms()@,
            ),
            old(self).spec_imports().wf() ==> final(self).spec_imports().wf(),
            final(self).spec_exports() == old(self).spec_exports(),
            final(self).spec_strings() == old(self).spec_strings(),
            final(self).spec_code() == old(self).spec_code(),
            final(self).name() == old(self).name(),
    {
        self.import_table.base_functions(&mut self.atom_table);
    }

    /// Shared access to the atom table.
    pub fn atom_table(&self) -> (r: &AtomTable)
        ensures
            *r == self.spec_atoms(),
    {
        &self.atom_table
    }

    /// Exclusive access to the atom table, for interning.
    pub fn atom_table_mut(&mut self) -> (r: &mut AtomTable)
        ensures
            *r == old(self).spec_atoms(),
            final(self).spec_atoms() == *final(r),
            final(self).spec_imports() == old(self).spec_imports(),
            final(self).spec_exports() == old(self).spec_exports(),
            final(self).spec_strings() == old(self).spec_strings(),
            final(self).spec_code() == old(self).spec_code(),
            final(self).name() == old(self).name(),
    {
        &mut self.atom_table
    }

    /// Shared access to the import table.
    pub fn import_table(&self) -> (r: &ImportTable)
        ensures
            *r == self.spec_imports(),
    {
        &self.import_table
    }

    /// Exclusive access to the import table.
    pub fn import_table_mut(&mut self) -> (r: &mut ImportTable)
        ensures
            *r == old(self).spec_imports(),
            final(self).spec_imports() == *final(r),
            final(self).spec_atoms() == old(self).spec_atoms(),
            final(self).spec_exports() == old(self).spec_exports(),
            final(self).spec_strings() == old(self).spec_strings(),
            final(self).spec_code() == old(self).spec_code(),
            final(self).name() == old(self).name(),
    {
        &mut self.import_table
    }

    /// Shared access to the export table.
    pub fn export_table(&self) -> (r: &ExportTable)
        ensures
            *r == self.spec_exports(),
    {
        &self.export_table
    }

    /// Exclusive access to the export table, for registering finished
    /// functions.
    pub fn export_table_mut(&mut self) -> (r: &mut ExportTable)
        ensures
            *r == old(self).spec_exports(),
            final(self).spec_exports() == *final(r),
            final(self).spec_atoms() == old(self).spec_atoms(),
            final(self).spec_imports() == old(self).spec_imports(),
            final(self).spec_strings() == old(self).spec_strings(),
            final(self).spec_code() == old(self).spec_code(),
            final(self).name() == old(self).name(),
    {
        &mut self.export_table
    }

    /// Exclusive access to the code generator.
    pub fn code(&mut self) -> (r: &mut Code)
        ensures
            *r == old(self).spec_code(),
            final(self).spec_code() == *final(r),
            final(self).spec_atoms() == old(self).spec_atoms(),
            final(self).spec_imports() == old(self).spec_imports(),
            final(self).spec_exports() == old(self).spec_exports(),
            final(self).spec_strings() == old(self).spec_strings(),
            final(self).name() == old(self).name(),
    {
        &mut self.code
    }

    /// Exclusive access to the code generator and atom table together with
    /// shared access to the import table: one function build reads the
    /// imports and, on finalization, mutates both the stream and the atom
    /// table.
    pub fn build_handles(&mut self) -> ((code, atoms, imports): (
        &mut Code,
        &mut AtomTable,
        &ImportTable,
    ))
        ensures
            *code == old(self).spec_code(),
            *atoms == old(self).spec_atoms(),
            *imports == old(self).spec_imports(),
            final(self).spec_code() == *final(code),
            final(self).spec_atoms() == *final(atoms),
            final(self).spec_imports() == old(self).spec_imports(),
            final(self).spec_exports() == old(self).spec_exports(),
            final(self).spec_strings() == old(self).spec_strings(),
            final(self).name() == old(self).name(),
    {
        (&mut self.code, &mut self.atom_table, &self.import_table)
    }

    /// Serializes the whole module: the format tag and each table's chunk,
    /// in fixed order, wrapped as the outer container chunk.
    pub fn encode(&self) -> (r: Vec<u8>)
        requires
            self.wf(),
            encodable(self),
        ensures
            r@ == module_encoding(self),
    {
        let mut content: Vec<u8> = Vec::new();
        proof {
            reveal_strlit("BEAM");
            assert(is_ascii_chars("BEAM"@));
        }
        push_ascii(&mut content, "BEAM");
        let atom_chunk = self.atom_table.encode();
        push_bytes(&mut content, &atom_chunk);
        let import_chunk = self.import_table.encode();
        push_bytes(&mut content, &import_chunk);
        let export_chunk = self.export_table.encode();
        push_bytes(&mut content, &export_chunk);
        let string_chunk = self.string_table.encode();
        push_bytes(&mut content, &string_chunk);
        let code_chunk = self.code.encode();
        push_bytes(&mut content, &code_chunk);
        proof {
            assert(content@ =~= module_payload(self));
            reveal_strlit("FOR1");
            assert(is_ascii_chars("FOR1"@));
        }
        encode_chunk("FOR1", &mut content)
    }
}

} // verus!
