//! The code generator: one shared instruction stream for all of a module's
//! functions, plus the header counters, and the scoped builder that
//! assembles one function at a time.
//!
//! Label protocol: every finished function consumes exactly two label
//! identifiers, issued strictly in increasing order starting from 1 (label
//! 0 is reserved to mean "no target"). The first marks the position before
//! the function's information record, the second — recorded in the
//! function's export row — marks its executable entry point. The emitted
//! shape is fixed by the loader:
//! `Label(n)`, `Line(1)`, `FuncInfo(module, function, arity)`,
//! `Label(n+1)`, then the function's instructions.

use vstd::prelude::*;

use crate::atom::AtomTable;
use crate::atom::find_name;
use crate::atom::table_add;
use crate::atom::valid_name;
use crate::bytes::be32;
use crate::bytes::push_be32;
use crate::bytes::push_bytes;
use crate::chunk::chunk_encoding;
use crate::chunk::encode_chunk;
use crate::export::Export;
use crate::import::ImportTable;
use crate::import::find_import;
use crate::import::lemma_add_signature;
use crate::opcode::OP_FUNC_INFO;
use crate::opcode::OP_GC_BIF2;
use crate::opcode::OP_INT_CODE_END;
use crate::opcode::OP_LABEL;
use crate::opcode::OP_LINE;
use crate::opcode::OP_MOVE;
use crate::opcode::OP_RETURN;
use crate::tag::Tag;
use crate::tag::tag_encoding;
use vstd::string::StringExecFns;
use vstd::utf8::is_ascii_chars;

verus! {

/// A single-use, already-encoded unsigned-literal operand.
pub struct UnsignedValue(Vec<u8>);

impl View for UnsignedValue {
    type V = Seq<u8>;

    closed spec fn view(&self) -> Seq<u8> {
        self.0@
    }
}

impl UnsignedValue {
    /// Read-only view of the encoded operand bytes.
    pub fn bytes(&self) -> (r: &Vec<u8>)
        ensures
            r@ == self@,
    {
        &self.0
    }
}

/// A single-use, already-encoded integer-literal operand. Moving it into
/// an instruction consumes it, so one encoded operand can never land in
/// two instruction slots.
pub struct IntValue(Vec<u8>);

impl View for IntValue {
    type V = Seq<u8>;

    closed spec fn view(&self) -> Seq<u8> {
        self.0@
    }
}

impl IntValue {
    /// Read-only view of the encoded operand bytes.
    pub fn bytes(&self) -> (r: &Vec<u8>)
        ensures
            r@ == self@,
    {
        &self.0
    }
}

/// A single-use, already-encoded X-register operand.
pub struct XRegister(Vec<u8>);

impl View for XRegister {
    type V = Seq<u8>;

    closed spec fn view(&self) -> Seq<u8> {
        self.0@
    }
}

/// The function header emitted into the shared stream when a function's
/// build completes. Atom references are one-based; the line number is the
/// fixed literal 1 (line tracking is deliberately deferred).
pub open spec fn func_header(
    module_ref: int,
    function_ref: int,
    arity: int,
    first_label: int,
    entry_label: int,
) -> Seq<u8> {
    seq![OP_LABEL] + tag_encoding(Tag::Unsigned, first_label) + seq![OP_LINE] + tag_encoding(
        Tag::Unsigned,
        1,
    ) + seq![OP_FUNC_INFO] + tag_encoding(Tag::Atom, module_ref) + tag_encoding(
        Tag::Atom,
        function_ref,
    ) + tag_encoding(Tag::Unsigned, arity) + seq![OP_LABEL] + tag_encoding(
        Tag::Unsigned,
        entry_label,
    )
}

/// The instruction sequence `build_add_int` appends: the two operands are
/// moved into registers 0 and 1, then the guarded built-in call is emitted
/// with failure label 0 ("trap, no handler"), argument count 2, the
/// resolved import index, and the three register operands.
pub open spec fn add_int_encoding(lhs: Seq<u8>, rhs: Seq<u8>, import_index: int, dest: int) -> Seq<
    u8,
> {
    seq![OP_MOVE] + lhs + tag_encoding(Tag::XRegister, 0) + seq![OP_MOVE] + rhs + tag_encoding(
        Tag::XRegister,
        1,
    ) + seq![OP_GC_BIF2] + tag_encoding(Tag::Label, 0) + tag_encoding(Tag::Unsigned, 2)
        + tag_encoding(Tag::Unsigned, import_index) + tag_encoding(Tag::XRegister, 0)
        + tag_encoding(Tag::XRegister, 1) + tag_encoding(Tag::XRegister, dest)
}

/// The code chunk's payload: the fixed sub-header (its own size, the
/// instruction-set version, the highest opcode used), the label and
/// function counters, the shared stream, and the end-of-code marker. The
/// marker is appended to the output only, never to the stream itself, so
/// serialization can be repeated without mutating the module.
pub open spec fn code_payload(labels: u32, functions: u32, stream: Seq<u8>) -> Seq<u8> {
    be32(16) + be32(0) + be32(182) + be32(labels) + be32(functions) + stream + seq![
        OP_INT_CODE_END,
    ]
}

/// The shared instruction stream and header counters of one module.
#[derive(Debug)]
pub struct Code {
    parent_module_name: String,
    chunk: Vec<u8>,
    label_count: u32,
    function_count: u32,
    instruction_set: u32,
    opcode_max: u32,
    sub_size: u32,
}

impl Code {
    /// The owning module's name, as recorded at construction.
    pub closed spec fn module_name(&self) -> Seq<char> {
        self.parent_module_name@
    }

    /// The bytes of the shared instruction stream emitted so far.
    pub closed spec fn stream(&self) -> Seq<u8> {
        self.chunk@
    }

    /// The next label identifier to assign.
    pub closed spec fn labels(&self) -> u32 {
        self.label_count
    }

    /// How many function builds have been opened.
    pub closed spec fn functions(&self) -> u32 {
        self.function_count
    }

    /// The header's fixed protocol markers hold their required values.
    pub open spec fn wf(&self) -> bool {
        self.header_ok()
    }

    /// The three version markers written verbatim into the chunk header.
    pub closed spec fn header_ok(&self) -> bool {
        self.sub_size == 16 && self.instruction_set == 0 && self.opcode_max == 182
    }

    /// A fresh, empty generator for the named module. Label numbering
    /// starts at 1: label 0 is reserved for "no target".
    pub fn new(parent_module_name: String) -> (r: Code)
        ensures
            r.module_name() == parent_module_name@,
            r.stream() == Seq::<u8>::empty(),
            r.labels() == 1,
            r.functions() == 0,
            r.wf(),
    {
        let r = Code {
            parent_module_name,
            chunk: Vec::new(),
            label_count: 1,
            function_count: 0,
            instruction_set: 0,
            opcode_max: 182,
            sub_size: 16,
        };
        proof {
            assert(r.stream() =~= Seq::<u8>::empty());
        }
        r
    }

    /// Opens the build of one function: counts it and hands out a builder
    /// with a private, initially empty instruction buffer. Nothing reaches
    /// the shared stream until the builder finalizes.
    pub fn build_function_block(&mut self, function_name: String, arity: u32) -> (r: FunctionBlock)
        requires
            old(self).functions() < u32::MAX,
        ensures
            final(self).functions() == old(self).functions() + 1,
            final(self).stream() == old(self).stream(),
            final(self).labels() == old(self).labels(),
            final(self).module_name() == old(self).module_name(),
            final(self).wf() == old(self).wf(),
            r.insns() == Seq::<u8>::empty(),
            r.fn_name() == function_name@,
            r.fn_arity() == arity,
            r.label() is None,
    {
        self.function_count = self.function_count + 1;
        FunctionBlock::new(function_name, arity)
    }

    /// Serializes the code chunk from the current stream and counters.
    pub fn encode(&self) -> (r: Vec<u8>)
        requires
            self.wf(),
            self.stream().len() + 24 <= u32::MAX,
        ensures
            r@ == chunk_encoding("Code"@, code_payload(self.labels(), self.functions(), self.stream())),
    {
        let mut payload: Vec<u8> = Vec::new();
        push_be32(&mut payload, self.sub_size);
        push_be32(&mut payload, self.instruction_set);
        push_be32(&mut payload, self.opcode_max);
        push_be32(&mut payload, self.label_count);
        push_be32(&mut payload, self.function_count);
        push_bytes(&mut payload, &self.chunk);
        payload.push(OP_INT_CODE_END);
        proof {
            assert(payload@ =~= code_payload(self.labels(), self.functions(), self.stream()));
            reveal_strlit("Code");
            assert(is_ascii_chars("Code"@));
        }
        encode_chunk("Code", &mut payload)
    }
}

/// The scoped builder for one function: a private instruction buffer, the
/// function's name and arity, and — once the build has finalized — the
/// entry label recorded for its export row.
pub struct FunctionBlock {
    instructions: Vec<u8>,
    function_name: String,
    arity: u32,
    label_id: Option<u32>,
}

impl FunctionBlock {
    /// The private instruction buffer accumulated so far.
    pub closed spec fn insns(&self) -> Seq<u8> {
        self.instructions@
    }

    /// The function's name.
    pub closed spec fn fn_name(&self) -> Seq<char> {
        self.function_name@
    }

    /// The function's arity.
    pub closed spec fn fn_arity(&self) -> u32 {
        self.arity
    }

    /// The entry label, known only after the build finalized.
    pub closed spec fn label(&self) -> Option<u32> {
        self.label_id
    }

    fn new(function_name: String, arity: u32) -> (r: FunctionBlock)
        ensures
            r.insns() == Seq::<u8>::empty(),
            r.fn_name() == function_name@,
            r.fn_arity() == arity,
            r.label() is None,
    {
        let r = FunctionBlock { instructions: Vec::new(), function_name, arity, label_id: None };
        proof {
            assert(r.insns() =~= Seq::<u8>::empty());
        }
        r
    }

    /// The export row of the finished function: its atom, its arity, and
    /// the entry label assigned at finalization. Calling this before the
    /// build finalized, or without the function's atom interned, is a
    /// protocol-sequencing error and is excluded.
    pub fn function_metadata(&self, atom_table: &AtomTable) -> (r: Export)
        requires
            self.label() is Some,
            0 <= find_name(atom_table@, self.fn_name()) < atom_table@.len(),
        ensures
            r@ == (
                atom_table@[find_name(atom_table@, self.fn_name())],
                self.fn_arity(),
                self.label().unwrap(),
            ),
    {
        let function = atom_table.find(self.function_name.as_str()).unwrap();
        Export::new(function, self.arity, self.label_id.unwrap())
    }

    /// Encodes an unsigned literal operand for later use in an
    /// instruction. Values outside the tagged scheme's range are refused.
    pub fn build_const_uint(&mut self, value: u32) -> (r: UnsignedValue)
        requires
            value < 2048,
        ensures
            r@ == tag_encoding(Tag::Unsigned, value as int),
            *final(self) == *old(self),
    {
        UnsignedValue(Tag::Unsigned.encode(value as i32))
    }

    /// Encodes an integer literal operand for later use in an instruction.
    /// Negative values and values of 2048 or more are outside the tagged
    /// scheme and are refused.
    pub fn build_const_int(&mut self, value: i32) -> (r: IntValue)
        requires
            0 <= value < 2048,
        ensures
            r@ == tag_encoding(Tag::Integer, value as int),
            *final(self) == *old(self),
    {
        IntValue(Tag::Integer.encode(value))
    }

    /// Appends the call of the addition built-in: moves the operands into
    /// registers 0 and 1 and emits the guarded two-argument call with the
    /// import index resolved from the table. The built-in must have been
    /// registered — a missing registration is a programming error and is
    /// excluded, mirroring the fatal failure of the original protocol.
    pub fn build_add_int(&mut self, imports: &ImportTable, lhs: IntValue, rhs: IntValue, dest: u32)
        requires
            imports@.len() <= u32::MAX,
            0 <= find_import(imports@, "erlang"@, "+"@, 2) < 2048,
            dest < 2048,
        ensures
            final(self).insns() == old(self).insns() + add_int_encoding(
                lhs@,
                rhs@,
                find_import(imports@, "erlang"@, "+"@, 2),
                dest as int,
            ),
            final(self).fn_name() == old(self).fn_name(),
            final(self).fn_arity() == old(self).fn_arity(),
            final(self).label() == old(self).label(),
    {
        proof {
            lemma_add_signature();
        }
        let bif_add_function = imports.get_import_function_index(
            String::from_str("erlang:+/2"),
        ).unwrap();

        self.build_move_to_x_register(lhs, 0);
        self.build_move_to_x_register(rhs, 1);

        self.instructions.push(OP_GC_BIF2);
        let fail_label = Tag::Label.encode(0);
        push_bytes(&mut self.instructions, &fail_label);
        let arg_count = Tag::Unsigned.encode(2);
        push_bytes(&mut self.instructions, &arg_count);
        let bif_index = Tag::Unsigned.encode(bif_add_function as i32);
        push_bytes(&mut self.instructions, &bif_index);
        let reg0 = Tag::XRegister.encode(0);
        push_bytes(&mut self.instructions, &reg0);
        let reg1 = Tag::XRegister.encode(1);
        push_bytes(&mut self.instructions, &reg1);
        let reg_dest = Tag::XRegister.encode(dest as i32);
        push_bytes(&mut self.instructions, &reg_dest);
        proof {
            assert(self.insns() =~= old(self).insns() + add_int_encoding(
                lhs@,
                rhs@,
                find_import(imports@, "erlang"@, "+"@, 2),
                dest as int,
            ));
        }
    }

    /// Appends a move of the encoded operand into the given X register,
    /// consuming the operand.
    pub fn build_move_to_x_register(&mut self, value: IntValue, x_register: u32)
        requires
            x_register < 2048,
        ensures
            final(self).insns() == old(self).insns() + seq![OP_MOVE] + value@ + tag_encoding(
                Tag::XRegister,
                x_register as int,
            ),
            final(self).fn_name() == old(self).fn_name(),
            final(self).fn_arity() == old(self).fn_arity(),
            final(self).label() == old(self).label(),
    {
        self.instructions.push(OP_MOVE);
        push_bytes(&mut self.instructions, &value.0);
        let reg = Tag::XRegister.encode(x_register as i32);
        push_bytes(&mut self.instructions, &reg);
        proof {
            assert(self.insns() =~= old(self).insns() + seq![OP_MOVE] + value@ + tag_encoding(
                Tag::XRegister,
                x_register as int,
            ));
        }
    }

    /// Appends the return opcode and finalizes the function: interns its
    /// name, emits the label / line / function-info / label header into
    /// the shared stream, records the entry label, and appends the private
    /// buffer after the header.
    pub fn build_return(&mut self, code: &mut Code, atoms: &mut AtomTable)
        requires
            old(atoms).wf(),
            old(atoms)@.len() + 2 <= 2048,
            valid_name(old(self).fn_name()),
            0 <= find_name(old(atoms)@, old(code).module_name()) <= 2046,
            old(self).fn_arity() < 2048,
            old(code).labels() + 1 < 2048,
        ensures
            final(self).insns() == old(self).insns() + seq![OP_RETURN],
            final(self).fn_name() == old(self).fn_name(),
            final(self).fn_arity() == old(self).fn_arity(),
            final(self).label() == Some((old(code).labels() + 1) as u32),
            final(atoms)@ == table_add(old(atoms)@, old(self).fn_name()),
            final(atoms).wf(),
            final(code).stream() == old(code).stream() + func_header(
                find_name(old(atoms)@, old(code).module_name()) + 1,
                old(atoms)@.len() as int + 1,
                old(self).fn_arity() as int,
                old(code).labels() as int,
                old(code).labels() + 1,
            ) + old(self).insns() + seq![OP_RETURN],
            final(code).labels() == old(code).labels() + 2,
            final(code).functions() == old(code).functions(),
            final(code).module_name() == old(code).module_name(),
            final(code).wf() == old(code).wf(),
    {
        self.instructions.push(OP_RETURN);
        self.encode_function_into_code(code, atoms);
    }

    /// Emits the finished function into the shared stream: the two-label
    /// header around the function-info record, then the private buffer.
    fn encode_function_into_code(&mut self, code: &mut Code, atoms: &mut AtomTable)
        requires
            old(atoms).wf(),
            old(atoms)@.len() + 2 <= 2048,
            valid_name(old(self).fn_name()),
            0 <= find_name(old(atoms)@, old(code).module_name()) <= 2046,
            old(self).fn_arity() < 2048,
            old(code).labels() + 1 < 2048,
        ensures
            final(self).insns() == old(self).insns(),
            final(self).fn_name() == old(self).fn_name(),
            final(self).fn_arity() == old(self).fn_arity(),
            final(self).label() == Some((old(code).labels() + 1) as u32),
            final(atoms)@ == table_add(old(atoms)@, old(self).fn_name()),
            final(atoms).wf(),
            final(code).stream() == old(code).stream() + func_header(
                find_name(old(atoms)@, old(code).module_name()) + 1,
                old(atoms)@.len() as int + 1,
                old(self).fn_arity() as int,
                old(code).labels() as int,
                old(code).labels() + 1,
            ) + old(self).insns(),
            final(code).labels() == old(code).labels() + 2,
            final(code).functions() == old(code).functions(),
            final(code).module_name() == old(code).module_name(),
            final(code).wf() == old(code).wf(),
    {
        code.chunk.push(OP_LABEL);
        let first_label = Tag::Unsigned.encode(code.label_count as i32);
        push_bytes(&mut code.chunk, &first_label);
        code.label_count = code.label_count + 1;

        code.chunk.push(OP_LINE);
        let line_one = Tag::Unsigned.encode(1);
        push_bytes(&mut code.chunk, &line_one);

        code.chunk.push(OP_FUNC_INFO);
        let module_index = atoms.get_index(code.parent_module_name.as_str()).unwrap();
        proof {
            let f = find_name(atoms@, code.module_name());
            assert(atoms@[f].1 == f);
        }
        let module_ref = Tag::Atom.encode((module_index + 1) as i32);
        push_bytes(&mut code.chunk, &module_ref);
        let function_atom = atoms.add(self.function_name.as_str());
        let function_ref = Tag::Atom.encode((function_atom.index + 1) as i32);
        push_bytes(&mut code.chunk, &function_ref);
        let arity_operand = Tag::Unsigned.encode(self.arity as i32);
        push_bytes(&mut code.chunk, &arity_operand);

        code.chunk.push(OP_LABEL);
        let entry_label = Tag::Unsigned.encode(code.label_count as i32);
        push_bytes(&mut code.chunk, &entry_label);
        self.label_id = Some(code.label_count);
        code.label_count = code.label_count + 1;

        push_bytes(&mut code.chunk, &self.instructions);
        proof {
            assert(code.stream() =~= old(code).stream() + func_header(
                find_name(old(atoms)@, old(code).module_name()) + 1,
                old(atoms)@.len() as int + 1,
                old(self).fn_arity() as int,
                old(code).labels() as int,
                old(code).labels() + 1,
            ) + old(self).insns());
        }
    }
}

} // verus!
