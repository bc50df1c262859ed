//! The import table: (module atom, function atom, arity) rows naming the
//! runtime built-ins a module calls. Rows are appended once at setup time
//! and their positions are the indices encoded into call instructions, so
//! the table is strictly append-only.
//!
//! Imports are declared and resolved through textual signatures of the
//! shape `"module:function/arity"`: the module part runs to the first `:`,
//! the function part to the first `/` after it, and the arity is the
//! decimal tail.

use vstd::prelude::*;

use crate::atom::Atom;
use crate::atom::AtomTable;
use crate::atom::got_atom;
use crate::atom::table_get;
use crate::bytes::be32;
use crate::bytes::push_be32;
use crate::chunk::chunk_encoding;
use crate::chunk::encode_chunk;
use crate::search::all_digits;
use crate::search::digits_val;
use crate::search::find_char;
use crate::search::first_match;
use crate::search::lemma_digits_prefix_le;
use crate::search::lemma_digits_val_nonneg;
use crate::search::lemma_digits_val_step;
use crate::search::lemma_find_char_is;
use crate::search::lemma_find_char_properties;
use crate::search::str_eq_chars;
use vstd::string::StrSliceExecFns;
use vstd::utf8::is_ascii_chars;

verus! {

broadcast use vstd::utf8::is_ascii_chars_nat_bound;

/// One imported built-in: the interned module and function atoms and the
/// arity. The atoms are copies taken at registration time.
#[derive(Debug)]
pub struct Import {
    pub module: Atom,
    pub function: Atom,
    pub arity: u32,
}

impl View for Import {
    type V = ((Seq<char>, u32), (Seq<char>, u32), u32);

    open spec fn view(&self) -> ((Seq<char>, u32), (Seq<char>, u32), u32) {
        (self.module@, self.function@, self.arity)
    }
}

/// Index of the first import row matching the (module, function, arity)
/// triple, or -1 when none does.
pub open spec fn find_import(
    t: Seq<((Seq<char>, u32), (Seq<char>, u32), u32)>,
    m: Seq<char>,
    f: Seq<char>,
    a: u32,
) -> int {
    first_match(
        t,
        |e: ((Seq<char>, u32), (Seq<char>, u32), u32)| e.0.0 == m && e.1.0 == f && e.2 == a,
    )
}

/// If position `i` holds the first matching row, `find_import` is `i`.
pub proof fn lemma_find_import_is(
    t: Seq<((Seq<char>, u32), (Seq<char>, u32), u32)>,
    m: Seq<char>,
    f: Seq<char>,
    a: u32,
    i: int,
)
    requires
        0 <= i < t.len(),
        t[i].0.0 == m && t[i].1.0 == f && t[i].2 == a,
        forall|j: int|
            0 <= j < i ==> !((#[trigger] t[j]).0.0 == m && t[j].1.0 == f && t[j].2 == a),
    ensures
        find_import(t, m, f, a) == i,
    decreases i,
{
    if i > 0 {
        assert(t.drop_first()[i - 1] == t[i]);
        assert forall|j: int| 0 <= j < i - 1 implies !((#[trigger] t.drop_first()[j]).0.0 == m
            && t.drop_first()[j].1.0 == f && t.drop_first()[j].2 == a) by {
            assert(t.drop_first()[j] == t[j + 1]);
        }
        lemma_find_import_is(t.drop_first(), m, f, a, i - 1);
    }
}

/// If no row matches, `find_import` is -1.
pub proof fn lemma_find_import_none(
    t: Seq<((Seq<char>, u32), (Seq<char>, u32), u32)>,
    m: Seq<char>,
    f: Seq<char>,
    a: u32,
)
    requires
        forall|j: int|
            0 <= j < t.len() ==> !((#[trigger] t[j]).0.0 == m && t[j].1.0 == f && t[j].2 == a),
    ensures
        find_import(t, m, f, a) == -1,
    decreases t.len(),
{
    if t.len() > 0 {
        assert forall|j: int| 0 <= j < t.drop_first().len() implies !((#[trigger] t.drop_first()[
            j
        ]).0.0 == m && t.drop_first()[j].1.0 == f && t.drop_first()[j].2 == a) by {
            assert(t.drop_first()[j] == t[j + 1]);
        }
        lemma_find_import_none(t.drop_first(), m, f, a);
    }
}

/// Index of the signature's first `:`.
pub open spec fn sig_colon(s: Seq<char>) -> int {
    find_char(s, ':')
}

/// Everything after the first `:`.
pub open spec fn sig_rest(s: Seq<char>) -> Seq<char> {
    s.subrange(sig_colon(s) + 1, s.len() as int)
}

/// Index, within the rest, of the first `/` after the `:`.
pub open spec fn sig_slash(s: Seq<char>) -> int {
    find_char(sig_rest(s), '/')
}

/// The decimal tail after the `/`.
pub open spec fn sig_digits(s: Seq<char>) -> Seq<char> {
    sig_rest(s).subrange(sig_slash(s) + 1, sig_rest(s).len() as int)
}

/// A signature the parser accepts: it has a `:`, a later `/`, and a
/// non-empty all-decimal arity that fits 32 bits. Anything else is a
/// programming error and is refused up front.
pub open spec fn sig_wf(s: Seq<char>) -> bool {
    &&& sig_colon(s) >= 0
    &&& sig_slash(s) >= 0
    &&& sig_digits(s).len() > 0
    &&& all_digits(sig_digits(s))
    &&& digits_val(sig_digits(s)) <= u32::MAX
}

/// The module part: everything before the first `:`.
pub open spec fn sig_module(s: Seq<char>) -> Seq<char> {
    s.subrange(0, sig_colon(s))
}

/// The function part: between the `:` and the first `/` after it.
pub open spec fn sig_function(s: Seq<char>) -> Seq<char> {
    sig_rest(s).subrange(0, sig_slash(s))
}

/// The arity: the decimal value of the tail.
pub open spec fn sig_arity(s: Seq<char>) -> int {
    digits_val(sig_digits(s))
}

/// The wire record of one import row: the two atom references, one-based,
/// then the arity, each as four big-endian bytes.
pub open spec fn import_record(e: ((Seq<char>, u32), (Seq<char>, u32), u32)) -> Seq<u8> {
    be32((e.0.1 + 1) as u32) + be32((e.1.1 + 1) as u32) + be32(e.2)
}

/// The concatenated records of every row, in table order.
pub open spec fn import_records(t: Seq<((Seq<char>, u32), (Seq<char>, u32), u32)>) -> Seq<u8>
    decreases t.len(),
{
    if t.len() == 0 {
        Seq::empty()
    } else {
        import_records(t.drop_last()) + import_record(t.last())
    }
}

/// The import chunk's payload: a big-endian row count, then the records.
pub open spec fn imports_payload(t: Seq<((Seq<char>, u32), (Seq<char>, u32), u32)>) -> Seq<u8> {
    be32(t.len() as u32) + import_records(t)
}

/// The atom table after `base_functions` has interned the built-ins'
/// names, starting from `t0`.
pub open spec fn base_atoms(t0: Seq<(Seq<char>, u32)>) -> Seq<(Seq<char>, u32)> {
    table_get(table_get(table_get(table_get(t0, "erlang"@), "+"@), "erlang"@), "-"@)
}

/// The two rows `base_functions` appends, with the atom copies each
/// interning step produced, starting from atom table `t0`.
pub open spec fn base_imports(t0: Seq<(Seq<char>, u32)>) -> Seq<
    ((Seq<char>, u32), (Seq<char>, u32), u32),
> {
    let t1 = table_get(t0, "erlang"@);
    let t2 = table_get(t1, "+"@);
    let t3 = table_get(t2, "erlang"@);
    seq![
        (got_atom(t0, "erlang"@), got_atom(t1, "+"@), 2u32),
        (got_atom(t2, "erlang"@), got_atom(t3, "-"@), 2u32),
    ]
}

/// The addition built-in's canonical signature parses to the triple
/// ("erlang", "+", 2).
pub proof fn lemma_add_signature()
    ensures
        sig_wf("erlang:+/2"@),
        is_ascii_chars("erlang:+/2"@),
        sig_module("erlang:+/2"@) == "erlang"@,
        sig_function("erlang:+/2"@) == "+"@,
        sig_arity("erlang:+/2"@) == 2,
{
    reveal_strlit("erlang:+/2");
    reveal_strlit("erlang");
    reveal_strlit("+");
    let s = "erlang:+/2"@;
    assert(s.len() == 10);
    assert(s[6] == ':');
    assert(s[0] == 'e' && s[1] == 'r' && s[2] == 'l' && s[3] == 'a' && s[4] == 'n' && s[5] == 'g');
    lemma_find_char_is(s, ':', 6);
    let rest = sig_rest(s);
    assert(rest =~= s.subrange(7, 10));
    assert(rest[0] == '+' && rest[1] == '/' && rest[2] == '2');
    lemma_find_char_is(rest, '/', 1);
    let ds = sig_digits(s);
    assert(ds =~= rest.subrange(2, 3));
    assert(ds.len() == 1 && ds[0] == '2');
    assert(ds.drop_last() =~= Seq::<char>::empty());
    assert(digits_val(ds.drop_last()) == 0);
    assert(digits_val(ds) == 2);
    assert(sig_module(s) =~= "erlang"@);
    assert(sig_function(s) =~= "+"@);
}

/// Splits `"module:function/arity"` into its three parts. A signature
/// without the expected shape is a programming error and is excluded by
/// precondition, mirroring the fatal failure of the original protocol.
pub fn parse_function_signature<'a>(function: &'a str) -> (r: (&'a str, &'a str, u32))
    requires
        function.is_ascii(),
        sig_wf(function@),
    ensures
        r.0@ == sig_module(function@),
        r.1@ == sig_function(function@),
        r.0.is_ascii(),
        r.1.is_ascii(),
        r.2 as int == sig_arity(function@),
{
    let ghost s = function@;
    let len = function.unicode_len();
    proof {
        lemma_find_char_properties(s, ':');
    }
    let mut ci: usize = 0;
    while function.get_char(ci) != ':'
        invariant
            function.is_ascii(),
            sig_wf(s),
            s == function@,
            len == s.len(),
            ci <= sig_colon(s) < len,
        decreases sig_colon(s) - ci,
    {
        proof {
            lemma_find_char_properties(s, ':');
            assert(ci != sig_colon(s));
        }
        ci = ci + 1;
    }
    proof {
        lemma_find_char_properties(s, ':');
        assert(ci == sig_colon(s));
    }
    let ghost rest = sig_rest(s);
    proof {
        lemma_find_char_properties(rest, '/');
        assert(forall|k: int| 0 <= k < rest.len() ==> rest[k] == s[ci + 1 + k]);
    }
    let ghost si_abs = ci + 1 + sig_slash(s);
    let mut fi: usize = ci + 1;
    while function.get_char(fi) != '/'
        invariant
            function.is_ascii(),
            sig_wf(s),
            s == function@,
            len == s.len(),
            ci == sig_colon(s),
            rest == sig_rest(s),
            si_abs == ci + 1 + sig_slash(s),
            ci + 1 <= fi <= si_abs < len,
            s[si_abs as int] == '/',
            forall|k: int| 0 <= k < sig_slash(s) ==> rest[k] != '/',
            forall|k: int| 0 <= k < rest.len() ==> rest[k] == s[ci + 1 + k],
        decreases si_abs - fi,
    {
        proof {
            assert(rest[fi - ci - 1] == s[fi as int]);
            assert(fi != si_abs);
        }
        fi = fi + 1;
    }
    proof {
        assert(rest[fi - ci - 1] == s[fi as int]);
        assert(fi == si_abs);
    }
    // Parse the decimal arity after the slash. The signature is known to
    // be well-formed, so every remaining character is a digit and the
    // value fits.
    let ghost ds = sig_digits(s);
    proof {
        assert(forall|k: int| 0 <= k < ds.len() ==> ds[k] == s[si_abs + 1 + k]);
        lemma_digits_val_nonneg(ds);
    }
    let mut acc: u32 = 0;
    let mut k: usize = fi + 1;
    while k < len
        invariant
            function.is_ascii(),
            sig_wf(s),
            s == function@,
            len == s.len(),
            fi == si_abs,
            si_abs == sig_colon(s) + 1 + sig_slash(s),
            ds == sig_digits(s),
            fi + 1 <= k <= len,
            ds.len() == len - fi - 1,
            forall|j: int| 0 <= j < ds.len() ==> ds[j] == s[si_abs + 1 + j],
            acc as int == digits_val(ds.take(k - fi - 1)),
        decreases len - k,
    {
        let ghost m = k - fi - 1;
        let b = function.get_ascii(k);
        proof {
            assert(ds[m as int] == s[k as int]);
            assert(48 <= s[k as int] as int <= 57);
            assert((s[k as int] as nat) < 128);
            assert(b as int == s[k as int] as int);
            lemma_digits_val_step(ds, m as int);
            lemma_digits_prefix_le(ds, m + 1);
        }
        let d = (b - 48) as u32;
        acc = acc * 10 + d;
        k = k + 1;
    }
    proof {
        assert(ds.take(ds.len() as int) =~= ds);
    }
    let module = function.substring_ascii(0, ci);
    let fname = function.substring_ascii(ci + 1, fi);
    proof {
        assert(fname@ =~= sig_function(s));
    }
    (module, fname, acc)
}

/// The append-only list of imported built-ins for one module.
#[derive(Debug)]
pub struct ImportTable {
    parent_module_name: String,
    imports: Vec<Import>,
}

impl View for ImportTable {
    type V = Seq<((Seq<char>, u32), (Seq<char>, u32), u32)>;

    closed spec fn view(&self) -> Seq<((Seq<char>, u32), (Seq<char>, u32), u32)> {
        Seq::new(self.imports@.len(), |i: int| self.imports@[i]@)
    }
}

impl ImportTable {
    /// The owning module's name, as recorded at construction.
    pub closed spec fn module_name(&self) -> Seq<char> {
        self.parent_module_name@
    }

    /// Every row's atom references and the row count stay encodable.
    pub open spec fn wf(&self) -> bool {
        &&& self@.len() <= u32::MAX
        &&& forall|i: int|
            0 <= i < self@.len() ==> (#[trigger] self@[i]).0.1 < u32::MAX && self@[i].1.1
                < u32::MAX
    }

    /// An empty table for the named module.
    pub fn new(parent_module_name: String) -> (r: ImportTable)
        ensures
            r@ == Seq::<((Seq<char>, u32), (Seq<char>, u32), u32)>::empty(),
            r.module_name() == parent_module_name@,
            r.wf(),
    {
        let r = ImportTable { parent_module_name, imports: Vec::new() };
        proof {
            assert(r@ =~= Seq::<((Seq<char>, u32), (Seq<char>, u32), u32)>::empty());
        }
        r
    }

    /// Registers the fixed built-in set — addition and subtraction, arity
    /// two — interning their module and function atoms and appending one
    /// row each. Calling it again appends duplicate rows; it is meant to
    /// run once per module.
    pub fn base_functions(&mut self, atoms: &mut AtomTable)
        requires
            old(atoms).wf(),
            old(atoms)@.len() + 4 <= u32::MAX,
            old(self)@.len() + 2 <= u32::MAX,
        ensures
            final(atoms)@ == base_atoms(old(atoms)@),
            final(atoms).wf(),
            final(self)@ == old(self)@ + base_imports(old(atoms)@),
            old(self).wf() ==> final(self).wf(),
            final(self).module_name() == old(self).module_name(),
    {
        proof {
            reveal_strlit("erlang");
            reveal_strlit("+");
            reveal_strlit("-");
        }
        let m1 = atoms.get("erlang");
        let f1 = atoms.get("+");
        self.imports.push(Import { module: m1, function: f1, arity: 2 });
        let m2 = atoms.get("erlang");
        let f2 = atoms.get("-");
        self.imports.push(Import { module: m2, function: f2, arity: 2 });
        proof {
            let n = old(self)@.len() as int;
            assert(self@ =~= old(self)@ + base_imports(old(atoms)@));
            assert(self@[n] == (m1@, f1@, 2u32));
            assert(self@[n + 1] == (m2@, f2@, 2u32));
            if old(self).wf() {
                assert forall|i: int|
                    0 <= i < self@.len() implies (#[trigger] self@[i]).0.1 < u32::MAX
                    && self@[i].1.1 < u32::MAX by {
                    if i < n {
                        assert(self@[i] == old(self)@[i]);
                    }
                }
            }
        }
    }

    /// Resolves a textual signature to the position of its row, the index
    /// call instructions encode. A signature that was never registered
    /// yields nothing; a malformed one is excluded by precondition, as in
    /// `parse_function_signature`.
    pub fn get_import_function_index(&self, import_function: String) -> (r: Option<u32>)
        requires
            import_function.is_ascii(),
            sig_wf(import_function@),
            self@.len() <= u32::MAX,
            sig_arity(import_function@) <= u32::MAX,
        ensures
            ({
                let m = sig_module(import_function@);
                let f = sig_function(import_function@);
                let a = sig_arity(import_function@) as u32;
                match r {
                    Some(i) => 0 <= find_import(self@, m, f, a) < self@.len() && i as int
                        == find_import(self@, m, f, a),
                    None => find_import(self@, m, f, a) == -1,
                }
            }),
    {
        proof {
            lemma_digits_val_nonneg(sig_digits(import_function@));
        }
        let (module, fname, arity) = parse_function_signature(import_function.as_str());
        let ghost m = sig_module(import_function@);
        let ghost f = sig_function(import_function@);
        let ghost a = sig_arity(import_function@) as u32;
        let mut i: usize = 0;
        while i < self.imports.len()
            invariant
                i <= self@.len(),
                self@.len() <= u32::MAX,
                self@.len() == self.imports@.len(),
                m == module@ && f == fname@ && a == arity,
                m == sig_module(import_function@),
                f == sig_function(import_function@),
                a == sig_arity(import_function@) as u32,
                forall|j: int|
                    0 <= j < i ==> !((#[trigger] self@[j]).0.0 == m && self@[j].1.0 == f
                        && self@[j].2 == a),
            decreases self@.len() - i,
        {
            let imp = &self.imports[i];
            proof {
                assert(self@[i as int] == self.imports@[i as int]@);
            }
            let same_module = str_eq_chars(imp.module.name.as_str(), module);
            let same_function = str_eq_chars(imp.function.name.as_str(), fname);
            if same_module && same_function && imp.arity == arity {
                proof {
                    lemma_find_import_is(self@, m, f, a, i as int);
                }
                return Some(i as u32);
            }
            i = i + 1;
        }
        proof {
            lemma_find_import_none(self@, m, f, a);
        }
        None
    }

    /// Serializes the table as its chunk: a row count, then each row's
    /// one-based atom references and arity.
    pub fn encode(&self) -> (r: Vec<u8>)
        requires
            self.wf(),
            imports_payload(self@).len() + 3 <= u32::MAX,
        ensures
            r@ == chunk_encoding("ImpT"@, imports_payload(self@)),
    {
        let mut payload: Vec<u8> = Vec::new();
        push_be32(&mut payload, self.imports.len() as u32);
        let mut i: usize = 0;
        while i < self.imports.len()
            invariant
                self.wf(),
                i <= self@.len(),
                self@.len() == self.imports@.len(),
                payload@ == be32(self@.len() as u32) + import_records(self@.take(i as int)),
            decreases self@.len() - i,
        {
            let imp = &self.imports[i];
            proof {
                assert(self@[i as int] == self.imports@[i as int]@);
            }
            push_be32(&mut payload, imp.module.index + 1);
            push_be32(&mut payload, imp.function.index + 1);
            push_be32(&mut payload, imp.arity);
            proof {
                assert(self@.take(i + 1).drop_last() =~= self@.take(i as int));
                assert(self@.take(i + 1).last() == self@[i as int]);
                assert(payload@ =~= be32(self@.len() as u32) + import_records(
                    self@.take(i + 1),
                ));
            }
            i = i + 1;
        }
        proof {
            assert(self@.take(self@.len() as int) =~= self@);
            reveal_strlit("ImpT");
            assert(is_ascii_chars("ImpT"@));
        }
        encode_chunk("ImpT", &mut payload)
    }
}

} // verus!
