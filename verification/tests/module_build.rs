use beam_sys::context::Context;

/// Walks the serialized container: checks the outer frame and returns the
/// inner chunks as (name, padded payload) pairs, in order.
fn chunks(bytes: &[u8]) -> Vec<(String, Vec<u8>)> {
    assert!(bytes.len() >= 12);
    assert_eq!(&bytes[0..4], b"FOR1");
    let outer_len = u32::from_be_bytes([bytes[4], bytes[5], bytes[6], bytes[7]]) as usize;
    assert_eq!(bytes.len(), 8 + outer_len);
    let payload = &bytes[8..];
    assert_eq!(&payload[0..4], b"BEAM");
    let mut rest = &payload[4..];
    let mut out = Vec::new();
    while !rest.is_empty() {
        assert!(rest.len() >= 8, "a chunk header fits");
        let name = String::from_utf8(rest[0..4].to_vec()).unwrap();
        let len = u32::from_be_bytes([rest[4], rest[5], rest[6], rest[7]]) as usize;
        assert!(rest.len() >= 8 + len);
        out.push((name, rest[8..8 + len].to_vec()));
        rest = &rest[8 + len..];
    }
    out
}

fn be32_at(bytes: &[u8], offset: usize) -> u32 {
    u32::from_be_bytes([
        bytes[offset],
        bytes[offset + 1],
        bytes[offset + 2],
        bytes[offset + 3],
    ])
}

fn build_simple_module() -> Vec<u8> {
    let mut module = Context::new("sys".to_string());
    module.add_basic_bif();
    let (code, atoms, _imports) = module.build_handles();
    let mut function_block = code.build_function_block("add".to_string(), 0);
    function_block.build_return(code, atoms);
    let metadata = function_block.function_metadata(atoms);
    module.export_table_mut().export_function(metadata);
    module.encode()
}

#[test]
fn simple_module_has_expected_container_shape() {
    let bytes = build_simple_module();
    assert_eq!(&bytes[0..4], b"FOR1");

    let parts = chunks(&bytes);
    let names: Vec<&str> = parts.iter().map(|(n, _)| n.as_str()).collect();
    assert_eq!(names, vec!["AtU8", "ImpT", "ExpT", "StrT", "Code"]);

    // Exactly one atom chunk; its first atom is the module name "sys".
    let atoms = &parts[0].1;
    assert_eq!(be32_at(atoms, 0), 5, "sys, erlang, +, -, add");
    assert_eq!(atoms[4], 3, "first atom's length");
    assert_eq!(&atoms[5..8], b"sys");

    // Exactly one export row: function "add" (atom index 4, one-based 5),
    // arity 0, entry label 2.
    let exports = &parts[2].1;
    assert_eq!(be32_at(exports, 0), 1);
    assert_eq!(be32_at(exports, 4), 5);
    assert_eq!(be32_at(exports, 8), 0);
    assert_eq!(be32_at(exports, 12), 2);

    // The code header counts exactly one function.
    let code = &parts[4].1;
    assert_eq!(be32_at(code, 0), 16, "sub-header size");
    assert_eq!(be32_at(code, 4), 0, "instruction-set version");
    assert_eq!(be32_at(code, 8), 182, "maximum opcode");
    assert_eq!(be32_at(code, 12), 3, "next label after two were consumed");
    assert_eq!(be32_at(code, 16), 1, "function count");
}

#[test]
fn simple_module_function_header_bytes() {
    let bytes = build_simple_module();
    let parts = chunks(&bytes);
    let code = &parts[4].1;
    // After the 20 header bytes: Label(1), Line(1), FuncInfo(sys, add, 0),
    // Label(2), Return, then the end-of-code marker.
    let expected = [
        1, 0x10, // Label 1
        153, 0x10, // Line 1
        2, 0x12, 0x52, 0x00, // FuncInfo: atom refs 1 and 5, arity 0
        1, 0x20, // Label 2
        19,   // Return
        3,    // end of code
    ];
    assert_eq!(&code[20..20 + expected.len()], &expected);
}

#[test]
fn addition_path_emits_documented_instruction_sequence() {
    let mut module = Context::new("calc".to_string());
    module.add_basic_bif();
    let (code, atoms, imports) = module.build_handles();
    let mut function_block = code.build_function_block("main".to_string(), 0);
    let lhs = function_block.build_const_int(1);
    let rhs = function_block.build_const_int(2);
    function_block.build_add_int(imports, lhs, rhs, 0);
    function_block.build_return(code, atoms);
    let metadata = function_block.function_metadata(atoms);
    module.export_table_mut().export_function(metadata);
    let bytes = module.encode();

    let parts = chunks(&bytes);
    let code_payload = &parts[4].1;
    let expected = [
        64, 0x11, 0x03, // move literal 1 into x0
        64, 0x21, 0x13, // move literal 2 into x1
        125, // guarded two-argument built-in call
        0x05, // failure label 0
        0x20, // argument count 2
        0x00, // resolved import index 0
        0x03, 0x13, 0x03, // x0, x1, destination x0
        19,   // return
    ];
    let found = code_payload
        .windows(expected.len())
        .any(|window| window == expected);
    assert!(found, "the addition sequence appears in the code stream");
}

#[test]
fn literal_operands_carry_their_tagged_encoding() {
    let mut module = Context::new("calc".to_string());
    let (code, _atoms, _imports) = module.build_handles();
    let mut function_block = code.build_function_block("main".to_string(), 0);
    let small = function_block.build_const_uint(7);
    assert_eq!(small.bytes(), &vec![0x70]);
    let wide = function_block.build_const_uint(300);
    assert_eq!(wide.bytes(), &vec![40, 44]);
    let int_operand = function_block.build_const_int(5);
    assert_eq!(int_operand.bytes(), &vec![0x51]);
}

#[test]
fn serialization_is_idempotent() {
    let mut module = Context::new("sys".to_string());
    module.add_basic_bif();
    let (code, atoms, _imports) = module.build_handles();
    let mut function_block = code.build_function_block("add".to_string(), 0);
    function_block.build_return(code, atoms);
    let metadata = function_block.function_metadata(atoms);
    module.export_table_mut().export_function(metadata);
    let first = module.encode();
    let second = module.encode();
    assert_eq!(first, second, "encoding mutates nothing");
    let third = module.encode();
    assert_eq!(first, third);
}
