use beam_sys::atom::AtomTable;
use beam_sys::context::Context;
use beam_sys::import::parse_function_signature;

#[test]
fn atom_table_starts_with_module_name_at_index_zero() {
    let table = AtomTable::new("out".to_string());
    let first = table.find("out").expect("the module name is interned");
    assert_eq!(first.name, "out");
    assert_eq!(first.index, 0);
}

#[test]
fn atom_add_assigns_strictly_increasing_indices() {
    let mut table = AtomTable::new("out".to_string());
    let a = table.add("alpha");
    assert_eq!(a.name, "alpha");
    assert_eq!(a.index, 1);
    let b = table.add("beta");
    assert_eq!(b.index, 2);
    let c = table.add("gamma");
    assert_eq!(c.index, 3);
    // Index 0 still holds the module name.
    assert_eq!(table.get_index("out"), Some(0));
}

#[test]
fn atom_get_on_existing_name_creates_no_duplicate() {
    let mut table = AtomTable::new("out".to_string());
    let first = table.get("alpha");
    assert_eq!(first.index, 1);
    let again = table.get("alpha");
    assert_eq!(again.index, 1, "the existing index is returned");
    let next = table.get("beta");
    assert_eq!(next.index, 2, "no duplicate row was created in between");
    let module = table.get("out");
    assert_eq!(module.index, 0, "the module name is never re-interned");
}

#[test]
fn atom_add_always_appends_even_when_present() {
    let mut table = AtomTable::new("out".to_string());
    table.add("alpha");
    let duplicate = table.add("alpha");
    assert_eq!(duplicate.index, 2);
    // Lookups keep answering with the first occurrence.
    assert_eq!(table.get_index("alpha"), Some(1));
}

#[test]
fn atom_find_missing_name_yields_nothing() {
    let table = AtomTable::new("out".to_string());
    assert!(table.find("missing").is_none());
    assert_eq!(table.get_index("missing"), None);
}

#[test]
fn atom_get_by_index_returns_the_entry() {
    let mut table = AtomTable::new("out".to_string());
    table.add("alpha");
    let entry = table.get_by_index(1);
    assert_eq!(entry.name, "alpha");
    assert_eq!(entry.index, 1);
}

#[test]
fn signature_parsing_splits_module_function_arity() {
    let (module, function, arity) = parse_function_signature("erlang:+/2");
    assert_eq!(module, "erlang");
    assert_eq!(function, "+");
    assert_eq!(arity, 2);

    let (module, function, arity) = parse_function_signature("lists:keyfind/3");
    assert_eq!(module, "lists");
    assert_eq!(function, "keyfind");
    assert_eq!(arity, 3);

    let (module, function, arity) = parse_function_signature("m:f/10");
    assert_eq!(module, "m");
    assert_eq!(function, "f");
    assert_eq!(arity, 10);
}

#[test]
fn base_functions_make_addition_resolvable_at_a_stable_index() {
    let mut module = Context::new("sys".to_string());
    module.add_basic_bif();
    let imports = module.import_table();
    assert_eq!(
        imports.get_import_function_index("erlang:+/2".to_string()),
        Some(0)
    );
    assert_eq!(
        imports.get_import_function_index("erlang:-/2".to_string()),
        Some(1)
    );
    // Asking twice answers the same position.
    assert_eq!(
        imports.get_import_function_index("erlang:+/2".to_string()),
        Some(0)
    );
}

#[test]
fn unregistered_signature_is_not_found() {
    let mut module = Context::new("sys".to_string());
    module.add_basic_bif();
    let imports = module.import_table();
    assert_eq!(
        imports.get_import_function_index("erlang:*/2".to_string()),
        None
    );
    assert_eq!(
        imports.get_import_function_index("lists:append/2".to_string()),
        None
    );
    assert_eq!(
        imports.get_import_function_index("erlang:+/3".to_string()),
        None,
        "a different arity does not match"
    );
}
