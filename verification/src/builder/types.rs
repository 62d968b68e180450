//! C type definitions and the declarator synthesizer.
//!
//! Types form an arena-owned graph: every compound type refers to its
//! sub-types by arena index, and a node may only refer to nodes allocated
//! before it, so the graph is acyclic by construction.

use crate::utils::{StringWriter, WriteError, WriteStr};
use vstd::prelude::*;

verus! {

/// Reference to a complete C type (size and layout known) in a `TypeArena`.
#[derive(Debug, Copy, Clone, PartialEq, Eq, Structural)]
pub struct TypeRef(pub usize);

/// Reference to a possibly-incomplete C type (forward declaration only).
#[derive(Debug, Copy, Clone, PartialEq, Eq, Structural)]
pub struct IncompleteTypeRef(pub usize);

/// A function signature: return type and ordered parameter types.
#[derive(Debug, Clone)]
pub struct FnSig {
    pub ret: TypeRef,
    pub args: Vec<TypeRef>,
}

/// One C type shape. Compound variants name their sub-types by arena index.
#[derive(Debug, Clone)]
pub enum Type {
    Bool,
    U8,
    I8,
    U16,
    I16,
    U32,
    I32,
    U64,
    I64,
    Float,
    Double,
    Pointer(usize),
    /// `intptr_t`, the pointer-sized signed integer.
    IntPtr,
    /// `uintptr_t`, the pointer-sized unsigned integer.
    UintPtr,
    Array { ty: usize, len: usize },
    FunctionPointer(FnSig),
    Struct { name: String },
    // Incomplete types
    Void,
    /// A forward-declared struct with unspecified fields.
    FwdStruct { name: String },
    FwdUnion { name: String },
}

/// All indices a signature mentions lie below `bound`.
pub open spec fn sig_indices_below(sig: FnSig, bound: int) -> bool {
    &&& (sig.ret.0 as int) < bound
    &&& forall|j: int| 0 <= j < sig.args@.len() ==> ((#[trigger] sig.args@[j]).0 as int) < bound
}

/// A node stored at index `i` refers only to nodes at smaller indices.
pub open spec fn node_wf(t: Type, i: int) -> bool {
    match t {
        Type::Pointer(p) => (p as int) < i,
        Type::Array { ty, len } => (ty as int) < i,
        Type::FunctionPointer(sig) => sig_indices_below(sig, i),
        _ => true,
    }
}

/// Every node refers only to earlier nodes, so the graph is acyclic.
pub open spec fn arena_wf(types: Seq<Type>) -> bool {
    forall|i: int| 0 <= i < types.len() ==> node_wf(#[trigger] types[i], i)
}

/// Arena owning a graph of C type nodes for one translation unit.
pub struct TypeArena {
    types: Vec<Type>,
}

impl View for TypeArena {
    type V = Seq<Type>;

    closed spec fn view(&self) -> Seq<Type> {
        self.types@
    }
}

impl TypeArena {
    pub open spec fn wf(&self) -> bool {
        arena_wf(self@)
    }

    /// An empty arena.
    pub fn new() -> (a: TypeArena)
        ensures
            a@ == Seq::<Type>::empty(),
            a.wf(),
    {
        let a = TypeArena { types: Vec::new() };
        proof {
            assert(a.wf());
        }
        a
    }

    pub fn len(&self) -> (n: usize)
        ensures
            n == self@.len(),
    {
        self.types.len()
    }

    /// Allocates a node whose sub-type indices all point at existing nodes,
    /// and hands back a reference to a complete type.
    pub fn alloc_type(&mut self, t: Type) -> (r: TypeRef)
        requires
            node_wf(t, old(self)@.len() as int),
        ensures
            final(self)@ == old(self)@.push(t),
            r.0 == old(self)@.len(),
            old(self).wf() ==> final(self).wf(),
    {
        let ghost prior = self.types@;
        let r = TypeRef(self.types.len());
        self.types.push(t);
        proof {
            if arena_wf(prior) {
                assert forall|i: int| 0 <= i < self.types@.len() implies node_wf(
                    #[trigger] self.types@[i],
                    i,
                ) by {
                    if i < prior.len() {
                        assert(node_wf(prior[i], i));
                    }
                }
            }
        }
        r
    }

    /// Allocates like `alloc` but hands back a reference that promises no
    /// completeness, for forward-declared aggregates.
    pub fn alloc_incomplete(&mut self, t: Type) -> (r: IncompleteTypeRef)
        requires
            node_wf(t, old(self)@.len() as int),
        ensures
            final(self)@ == old(self)@.push(t),
            r.0 == old(self)@.len(),
            old(self).wf() ==> final(self).wf(),
    {
        let c = self.alloc_type(t);
        IncompleteTypeRef(c.0)
    }
}

/// The decimal digit character for `d` in `0 ..= 9`.
pub open spec fn dec_digit(d: int) -> char {
    if d == 0 {
        '0'
    } else if d == 1 {
        '1'
    } else if d == 2 {
        '2'
    } else if d == 3 {
        '3'
    } else if d == 4 {
        '4'
    } else if d == 5 {
        '5'
    } else if d == 6 {
        '6'
    } else if d == 7 {
        '7'
    } else if d == 8 {
        '8'
    } else {
        '9'
    }
}

/// The decimal rendering of `n`, most significant digit first.
pub open spec fn dec_str(n: nat) -> Seq<char>
    decreases n,
{
    if n < 10 {
        seq![dec_digit(n as int)]
    } else {
        dec_str(n / 10).push(dec_digit((n % 10) as int))
    }
}

/// Appends the decimal rendering of `n` to `w`.
pub(crate) fn push_dec(n: usize, w: &mut StringWriter)
    ensures
        final(w).0@ == old(w).0@ + dec_str(n as nat),
    decreases n,
{
    if n >= 10 {
        push_dec(n / 10, w);
    }
    let d: usize = n % 10;
    let s: &str = if d == 0 {
        "0"
    } else if d == 1 {
        "1"
    } else if d == 2 {
        "2"
    } else if d == 3 {
        "3"
    } else if d == 4 {
        "4"
    } else if d == 5 {
        "5"
    } else if d == 6 {
        "6"
    } else if d == 7 {
        "7"
    } else if d == 8 {
        "8"
    } else {
        "9"
    };
    proof {
        reveal_strlit("0");
        reveal_strlit("1");
        reveal_strlit("2");
        reveal_strlit("3");
        reveal_strlit("4");
        reveal_strlit("5");
        reveal_strlit("6");
        reveal_strlit("7");
        reveal_strlit("8");
        reveal_strlit("9");
        assert(s@ =~= seq![dec_digit(d as int)]);
    }
    w.push_str(s);
    proof {
        assert(final(w).0@ =~= old(w).0@ + dec_str(n as nat));
    }
}

/// The keyword a scalar (or `void`) type is declared with.
pub open spec fn scalar_keyword(t: Type) -> Seq<char> {
    match t {
        Type::Bool => "bool"@,
        Type::U8 => "uint8_t"@,
        Type::I8 => "int8_t"@,
        Type::U16 => "uint16_t"@,
        Type::I16 => "int16_t"@,
        Type::U32 => "uint32_t"@,
        Type::I32 => "int32_t"@,
        Type::U64 => "uint64_t"@,
        Type::I64 => "int64_t"@,
        Type::Float => "float"@,
        Type::Double => "double"@,
        Type::IntPtr => "intptr_t"@,
        Type::UintPtr => "uintptr_t"@,
        Type::Void => "void"@,
        _ => Seq::<char>::empty(),
    }
}

/// The name a pointer hands down to its pointee: an array suffix would bind
/// tighter than the `*`, so a pointer to an array is parenthesized.
pub open spec fn pointer_name(types: Seq<Type>, p: int, name: Seq<char>) -> Seq<char> {
    if types[p] is Array {
        "(*"@ + name + ")"@
    } else {
        "* "@ + name
    }
}

/// The full declaration text for the type at index `i` with declarator `name`,
/// following the right-left rule: each compound layer rewrites the name and
/// recurses into its sub-type.
pub open spec fn type_decl(types: Seq<Type>, i: int, name: Seq<char>) -> Seq<char>
    decreases i, 2int, 0int,
        when arena_wf(types) && 0 <= i < types.len()
{
    match types[i] {
        Type::Pointer(p) => type_decl(types, p as int, pointer_name(types, p as int, name)),
        Type::Array { ty, len } => type_decl(
            types,
            ty as int,
            name + "["@ + dec_str(len as nat) + "]"@,
        ),
        Type::FunctionPointer(sig) => sig_decl(types, sig, "(*"@ + name + ")"@, i),
        Type::Struct { name: tag } => "struct "@ + tag@ + " "@ + name,
        Type::FwdStruct { name: tag } => "struct "@ + tag@ + " "@ + name,
        Type::FwdUnion { name: tag } => "union "@ + tag@ + " "@ + name,
        _ => scalar_keyword(types[i]) + " "@ + name,
    }
}

/// The declaration text for a function signature with declarator `name`: the
/// parameter list is appended to the name, and the whole string becomes the
/// declarator of the return type. `bound` bounds every index the signature
/// mentions. An empty parameter list renders as `(void)`, never `()`.
pub open spec fn sig_decl(types: Seq<Type>, sig: FnSig, name: Seq<char>, bound: int) -> Seq<char>
    decreases bound, 1int, 0int,
        when arena_wf(types) && 0 <= bound <= types.len() && sig_indices_below(sig, bound)
{
    type_decl(
        types,
        sig.ret.0 as int,
        name + "("@ + (if sig.args@.len() == 0 {
            "void"@
        } else {
            params_text(types, sig.args@, sig.args@.len() as int, bound)
        }) + ")"@,
    )
}

/// The text of the first `k` parameter declarators, comma-separated, with
/// positional one-based names `_1`, `_2`, ...
pub open spec fn params_text(types: Seq<Type>, args: Seq<TypeRef>, k: int, bound: int) -> Seq<char>
    decreases bound, 0int, k,
        when arena_wf(types) && 0 <= bound <= types.len() && 0 <= k <= args.len() && (forall|
            j: int,
        |
            0 <= j < args.len() ==> ((#[trigger] args[j]).0 as int) < bound)
{
    if k <= 0 {
        Seq::<char>::empty()
    } else {
        params_text(types, args, k - 1, bound) + (if k > 1 {
            ", "@
        } else {
            Seq::<char>::empty()
        }) + type_decl(types, args[k - 1].0 as int, "_"@ + dec_str(k as nat))
    }
}

/// Writes `"<keyword> <name>"`.
fn write_pair<W: WriteStr>(w: &mut W, kw: &str, name: &str) -> (r: Result<(), WriteError>)
    ensures
        r is Ok ==> final(w).contents() == old(w).contents() + kw@ + " "@ + name@,
        final(w).reliable() == old(w).reliable(),
        old(w).reliable() ==> r is Ok,
{
    w.write_str(kw)?;
    w.write_str(" ")?;
    w.write_str(name)
}

/// Writes `"<keyword><tag> <name>"`, for named aggregates.
fn write_tagged<W: WriteStr>(w: &mut W, kw: &str, tag: &str, name: &str) -> (r: Result<
    (),
    WriteError,
>)
    ensures
        r is Ok ==> final(w).contents() == old(w).contents() + kw@ + tag@ + " "@ + name@,
        final(w).reliable() == old(w).reliable(),
        old(w).reliable() ==> r is Ok,
{
    w.write_str(kw)?;
    w.write_str(tag)?;
    w.write_str(" ")?;
    w.write_str(name)
}

/// Writes the declaration of a variable `name` whose type is the node at
/// index `i`, by the right-left rule.
fn declare_type<W: WriteStr>(arena: &TypeArena, i: usize, name: &str, w: &mut W) -> (r: Result<
    (),
    WriteError,
>)
    requires
        arena.wf(),
        i < arena@.len(),
    ensures
        r is Ok ==> final(w).contents() == old(w).contents() + type_decl(arena@, i as int, name@),
        final(w).reliable() == old(w).reliable(),
        old(w).reliable() ==> r is Ok,
    decreases i as int, 2int, 0int,
{
    proof {
        assert(node_wf(arena@[i as int], i as int));
    }
    let keyword: &str = match &arena.types[i] {
        Type::Bool => "bool",
        Type::U8 => "uint8_t",
        Type::I8 => "int8_t",
        Type::U16 => "uint16_t",
        Type::I16 => "int16_t",
        Type::U32 => "uint32_t",
        Type::I32 => "int32_t",
        Type::U64 => "uint64_t",
        Type::I64 => "int64_t",
        Type::Float => "float",
        Type::Double => "double",
        Type::IntPtr => "intptr_t",
        Type::UintPtr => "uintptr_t",
        Type::Void => "void",
        Type::Pointer(p) => {
            let p: usize = *p;
            let mut nb = StringWriter::new();
            // An array suffix would bind tighter than the `*`: parenthesize.
            if matches!(&arena.types[p], Type::Array { .. }) {
                nb.push_str("(*");
                nb.push_str(name);
                nb.push_str(")");
            } else {
                nb.push_str("* ");
                nb.push_str(name);
            }
            proof {
                assert(nb.0@ =~= pointer_name(arena@, p as int, name@));
            }
            let r = declare_type(arena, p, nb.0.as_str(), w);
            proof {
                if r is Ok {
                    assert(final(w).contents() =~= old(w).contents() + type_decl(
                        arena@,
                        i as int,
                        name@,
                    ));
                }
            }
            return r;
        },
        Type::Array { ty, len } => {
            let ty: usize = *ty;
            let len: usize = *len;
            let mut nb = StringWriter::new();
            nb.push_str(name);
            nb.push_str("[");
            push_dec(len, &mut nb);
            nb.push_str("]");
            proof {
                assert(nb.0@ =~= name@ + "["@ + dec_str(len as nat) + "]"@);
            }
            let r = declare_type(arena, ty, nb.0.as_str(), w);
            proof {
                if r is Ok {
                    assert(final(w).contents() =~= old(w).contents() + type_decl(
                        arena@,
                        i as int,
                        name@,
                    ));
                }
            }
            return r;
        },
        Type::FunctionPointer(sig) => {
            // Function-pointer syntax is like function declaration syntax
            // except the variable name stands in `(*NAME)` where the
            // function name would.
            let mut nb = StringWriter::new();
            nb.push_str("(*");
            nb.push_str(name);
            nb.push_str(")");
            proof {
                assert(nb.0@ =~= "(*"@ + name@ + ")"@);
            }
            let r = declare_sig(arena, sig, nb.0.as_str(), w, Ghost(i as int));
            proof {
                if r is Ok {
                    assert(final(w).contents() =~= old(w).contents() + type_decl(
                        arena@,
                        i as int,
                        name@,
                    ));
                }
            }
            return r;
        },
        Type::Struct { name: tag } => {
            let r = write_tagged(w, "struct ", tag.as_str(), name);
            proof {
                if r is Ok {
                    assert(final(w).contents() =~= old(w).contents() + type_decl(
                        arena@,
                        i as int,
                        name@,
                    ));
                }
            }
            return r;
        },
        Type::FwdStruct { name: tag } => {
            let r = write_tagged(w, "struct ", tag.as_str(), name);
            proof {
                if r is Ok {
                    assert(final(w).contents() =~= old(w).contents() + type_decl(
                        arena@,
                        i as int,
                        name@,
                    ));
                }
            }
            return r;
        },
        Type::FwdUnion { name: tag } => {
            let r = write_tagged(w, "union ", tag.as_str(), name);
            proof {
                if r is Ok {
                    assert(final(w).contents() =~= old(w).contents() + type_decl(
                        arena@,
                        i as int,
                        name@,
                    ));
                }
            }
            return r;
        },
    };
    let r = write_pair(w, keyword, name);
    proof {
        assert(keyword@ == scalar_keyword(arena@[i as int]));
        if r is Ok {
            assert(final(w).contents() =~= old(w).contents() + type_decl(arena@, i as int, name@));
        }
    }
    r
}

/// Writes the declaration of a function signature under declarator `name`:
/// the comma-separated parameter declarators (or `void` when there are none)
/// are appended to the name, and the whole becomes the return type's
/// declarator.
fn declare_sig<W: WriteStr>(
    arena: &TypeArena,
    sig: &FnSig,
    name: &str,
    w: &mut W,
    bound: Ghost<int>,
) -> (r: Result<(), WriteError>)
    requires
        arena.wf(),
        0 <= bound@ <= arena@.len(),
        sig_indices_below(*sig, bound@),
    ensures
        r is Ok ==> final(w).contents() == old(w).contents() + sig_decl(
            arena@,
            *sig,
            name@,
            bound@,
        ),
        final(w).reliable() == old(w).reliable(),
        old(w).reliable() ==> r is Ok,
    decreases bound@, 1int, 0int,
{
    let mut buf = StringWriter::new();
    buf.push_str(name);
    buf.push_str("(");
    let n: usize = sig.args.len();
    if n == 0 {
        // An explicit `void` keeps the target compiler from reading the
        // declaration as an unspecified ("no prototype") parameter list.
        buf.push_str("void");
        proof {
            assert(buf.0@ =~= name@ + "("@ + "void"@);
        }
    } else {
        proof {
            assert(buf.0@ =~= name@ + "("@ + params_text(arena@, sig.args@, 0, bound@));
        }
        let mut k: usize = 0;
        while k < n
            invariant
                arena.wf(),
                0 <= bound@ <= arena@.len(),
                sig_indices_below(*sig, bound@),
                n == sig.args@.len(),
                k <= n,
                buf.0@ == name@ + "("@ + params_text(arena@, sig.args@, k as int, bound@),
            decreases n - k,
        {
            if k > 0 {
                buf.push_str(", ");
            }
            let mut pn = StringWriter::new();
            pn.push_str("_");
            push_dec(k + 1, &mut pn);
            proof {
                assert(pn.0@ =~= "_"@ + dec_str((k + 1) as nat));
                assert((sig.args@[k as int].0 as int) < bound@);
            }
            let res = declare_type(arena, sig.args[k].0, pn.0.as_str(), &mut buf);
            proof {
                assert(res is Ok);
                assert(buf.0@ =~= name@ + "("@ + params_text(
                    arena@,
                    sig.args@,
                    (k + 1) as int,
                    bound@,
                ));
            }
            k += 1;
        }
    }
    buf.push_str(")");
    proof {
        assert(buf.0@ =~= name@ + "("@ + (if sig.args@.len() == 0 {
            "void"@
        } else {
            params_text(arena@, sig.args@, sig.args@.len() as int, bound@)
        }) + ")"@);
        assert((sig.ret.0 as int) < bound@);
    }
    let r = declare_type(arena, sig.ret.0, buf.0.as_str(), w);
    proof {
        if r is Ok {
            assert(final(w).contents() =~= old(w).contents() + sig_decl(
                arena@,
                *sig,
                name@,
                bound@,
            ));
        }
    }
    r
}

impl FnSig {
    /// (Forward-)declares a function with this signature (partially).
    ///
    /// The output carries no trailing `;`, which makes this usable for
    /// forward declarations, function-pointer variables, and casts alike.
    pub fn declare<W: WriteStr>(&self, arena: &TypeArena, name: &str, w: &mut W) -> (r: Result<
        (),
        WriteError,
    >)
        requires
            arena.wf(),
            sig_indices_below(*self, arena@.len() as int),
        ensures
            r is Ok ==> final(w).contents() == old(w).contents() + sig_decl(
                arena@,
                *self,
                name@,
                arena@.len() as int,
            ),
            final(w).reliable() == old(w).reliable(),
            old(w).reliable() ==> r is Ok,
    {
        declare_sig(arena, self, name, w, Ghost(arena@.len() as int))
    }
}

/// Trait abstracting over `TypeRef` and `IncompleteTypeRef`, used by callers
/// that can work with either.
pub trait AsType {
    /// The arena index of the underlying type.
    spec fn type_index(&self) -> usize;

    fn as_type(&self) -> (i: usize)
        ensures
            i == self.type_index(),
    ;
}

impl AsType for TypeRef {
    open spec fn type_index(&self) -> usize {
        self.0
    }

    fn as_type(&self) -> usize {
        self.0
    }
}

impl AsType for IncompleteTypeRef {
    open spec fn type_index(&self) -> usize {
        self.0
    }

    fn as_type(&self) -> usize {
        self.0
    }
}

impl TypeRef {
    /// Declares a variable of this type and prints the declaration to `w`.
    ///
    /// Output is normally of the form `type name`, with no trailing `;`, so
    /// it serves local and global variables as well as struct fields.
    pub fn declare_variable<W: WriteStr>(&self, arena: &TypeArena, name: &str, w: &mut W) -> (r:
        Result<(), WriteError>)
        requires
            arena.wf(),
            (self.0 as int) < arena@.len(),
        ensures
            r is Ok ==> final(w).contents() == old(w).contents() + type_decl(
                arena@,
                self.0 as int,
                name@,
            ),
            final(w).reliable() == old(w).reliable(),
            old(w).reliable() ==> r is Ok,
    {
        declare_type(arena, self.0, name, w)
    }

    /// The bare rendering of this type, as a declaration with an empty name;
    /// this is the inspection text a diagnostic would show.
    pub fn describe(&self, arena: &TypeArena) -> (s: String)
        requires
            arena.wf(),
            (self.0 as int) < arena@.len(),
        ensures
            s@ == type_decl(arena@, self.0 as int, Seq::<char>::empty()),
    {
        let mut out = StringWriter::new();
        let r = self.declare_variable(arena, "", &mut out);
        proof {
            reveal_strlit("");
            assert(r is Ok);
            assert(""@ =~= Seq::<char>::empty());
            assert(out.0@ =~= type_decl(arena@, self.0 as int, Seq::<char>::empty()));
        }
        out.0
    }
}

} // verus!

// Properties of the declarator synthesizer, stated and proved once for every
// type shape and nesting.

verus! {

/// No character of `s` is a newline.
pub open spec fn newline_free(s: Seq<char>) -> bool {
    forall|k: int| 0 <= k < s.len() ==> s[k] != '\n'
}

/// Every aggregate tag stored in the arena is newline-free.
pub open spec fn tags_newline_free(types: Seq<Type>) -> bool {
    forall|i: int|
        0 <= i < types.len() ==> match #[trigger] types[i] {
            Type::Struct { name } => newline_free(name@),
            Type::FwdStruct { name } => newline_free(name@),
            Type::FwdUnion { name } => newline_free(name@),
            _ => true,
        }
}

/// The number of newline characters in `s`.
pub open spec fn line_count(s: Seq<char>) -> nat
    decreases s.len(),
{
    if s.len() == 0 {
        0
    } else {
        line_count(s.drop_last()) + (if s.last() == '\n' {
            1nat
        } else {
            0nat
        })
    }
}

pub proof fn lemma_newline_free_concat(a: Seq<char>, b: Seq<char>)
    requires
        newline_free(a),
        newline_free(b),
    ensures
        newline_free(a + b),
{
    assert forall|k: int| 0 <= k < (a + b).len() implies (a + b)[k] != '\n' by {
        if k < a.len() {
            assert((a + b)[k] == a[k]);
        } else {
            assert((a + b)[k] == b[k - a.len()]);
        }
    }
}

pub proof fn lemma_dec_str_newline_free(n: nat)
    ensures
        newline_free(dec_str(n)),
    decreases n,
{
    if n < 10 {
        assert(dec_str(n)[0] != '\n');
    } else {
        lemma_dec_str_newline_free(n / 10);
        let d = dec_digit((n % 10) as int);
        assert forall|k: int| 0 <= k < dec_str(n).len() implies dec_str(n)[k] != '\n' by {
            if k < dec_str(n / 10).len() {
                assert(dec_str(n)[k] == dec_str(n / 10)[k]);
            } else {
                assert(dec_str(n)[k] == d);
            }
        }
    }
}

pub proof fn lemma_line_count_concat(a: Seq<char>, b: Seq<char>)
    ensures
        line_count(a + b) == line_count(a) + line_count(b),
    decreases b.len(),
{
    if b.len() == 0 {
        assert(a + b =~= a);
    } else {
        lemma_line_count_concat(a, b.drop_last());
        assert((a + b).drop_last() =~= a + b.drop_last());
        assert((a + b).last() == b.last());
    }
}

pub proof fn lemma_newline_free_no_lines(s: Seq<char>)
    requires
        newline_free(s),
    ensures
        line_count(s) == 0,
    decreases s.len(),
{
    if s.len() > 0 {
        assert forall|k: int| 0 <= k < s.drop_last().len() implies s.drop_last()[k] != '\n' by {
            assert(s.drop_last()[k] == s[k]);
        }
        lemma_newline_free_no_lines(s.drop_last());
        assert(s.last() != '\n');
    }
}

/// Law: a declarator never spans lines. Whatever the type shape and nesting,
/// the text the synthesizer produces for a newline-free name holds no newline.
pub proof fn lemma_decl_single_line(types: Seq<Type>, i: int, name: Seq<char>)
    requires
        arena_wf(types),
        0 <= i < types.len(),
        tags_newline_free(types),
        newline_free(name),
    ensures
        newline_free(type_decl(types, i, name)),
    decreases i, 2int, 0int,
{
    assert(node_wf(types[i], i));
    reveal_strlit("(*");
    reveal_strlit(")");
    reveal_strlit("* ");
    reveal_strlit("[");
    reveal_strlit("]");
    reveal_strlit(" ");
    reveal_strlit("struct ");
    reveal_strlit("union ");
    match types[i] {
        Type::Pointer(p) => {
            if types[p as int] is Array {
                lemma_newline_free_concat("(*"@, name);
                lemma_newline_free_concat("(*"@ + name, ")"@);
            } else {
                lemma_newline_free_concat("* "@, name);
            }
            lemma_decl_single_line(types, p as int, pointer_name(types, p as int, name));
        },
        Type::Array { ty, len } => {
            lemma_dec_str_newline_free(len as nat);
            lemma_newline_free_concat(name, "["@);
            lemma_newline_free_concat(name + "["@, dec_str(len as nat));
            lemma_newline_free_concat(name + "["@ + dec_str(len as nat), "]"@);
            lemma_decl_single_line(types, ty as int, name + "["@ + dec_str(len as nat) + "]"@);
        },
        Type::FunctionPointer(sig) => {
            lemma_newline_free_concat("(*"@, name);
            lemma_newline_free_concat("(*"@ + name, ")"@);
            lemma_sig_single_line(types, sig, "(*"@ + name + ")"@, i);
        },
        Type::Struct { name: tag } => {
            lemma_newline_free_concat("struct "@, tag@);
            lemma_newline_free_concat("struct "@ + tag@, " "@);
            lemma_newline_free_concat("struct "@ + tag@ + " "@, name);
        },
        Type::FwdStruct { name: tag } => {
            lemma_newline_free_concat("struct "@, tag@);
            lemma_newline_free_concat("struct "@ + tag@, " "@);
            lemma_newline_free_concat("struct "@ + tag@ + " "@, name);
        },
        Type::FwdUnion { name: tag } => {
            lemma_newline_free_concat("union "@, tag@);
            lemma_newline_free_concat("union "@ + tag@, " "@);
            lemma_newline_free_concat("union "@ + tag@ + " "@, name);
        },
        _ => {
            reveal_strlit("bool");
            reveal_strlit("uint8_t");
            reveal_strlit("int8_t");
            reveal_strlit("uint16_t");
            reveal_strlit("int16_t");
            reveal_strlit("uint32_t");
            reveal_strlit("int32_t");
            reveal_strlit("uint64_t");
            reveal_strlit("int64_t");
            reveal_strlit("float");
            reveal_strlit("double");
            reveal_strlit("intptr_t");
            reveal_strlit("uintptr_t");
            reveal_strlit("void");
            assert(newline_free(scalar_keyword(types[i])));
            lemma_newline_free_concat(scalar_keyword(types[i]), " "@);
            lemma_newline_free_concat(scalar_keyword(types[i]) + " "@, name);
        },
    }
}

/// Law: a signature declarator never spans lines either.
pub proof fn lemma_sig_single_line(types: Seq<Type>, sig: FnSig, name: Seq<char>, bound: int)
    requires
        arena_wf(types),
        0 <= bound <= types.len(),
        sig_indices_below(sig, bound),
        tags_newline_free(types),
        newline_free(name),
    ensures
        newline_free(sig_decl(types, sig, name, bound)),
    decreases bound, 1int, 0int,
{
    reveal_strlit("(");
    reveal_strlit(")");
    reveal_strlit("void");
    let params = if sig.args@.len() == 0 {
        "void"@
    } else {
        params_text(types, sig.args@, sig.args@.len() as int, bound)
    };
    if sig.args@.len() == 0 {
        assert(newline_free(params));
    } else {
        lemma_params_single_line(types, sig.args@, sig.args@.len() as int, bound);
    }
    lemma_newline_free_concat(name, "("@);
    lemma_newline_free_concat(name + "("@, params);
    lemma_newline_free_concat(name + "("@ + params, ")"@);
    lemma_decl_single_line(types, sig.ret.0 as int, name + "("@ + params + ")"@);
}

/// Law: a parameter list never spans lines.
pub proof fn lemma_params_single_line(types: Seq<Type>, args: Seq<TypeRef>, k: int, bound: int)
    requires
        arena_wf(types),
        0 <= bound <= types.len(),
        0 <= k <= args.len(),
        forall|j: int| 0 <= j < args.len() ==> ((#[trigger] args[j]).0 as int) < bound,
        tags_newline_free(types),
    ensures
        newline_free(params_text(types, args, k, bound)),
    decreases bound, 0int, k,
{
    if k > 0 {
        reveal_strlit("_");
        reveal_strlit(", ");
        lemma_params_single_line(types, args, k - 1, bound);
        lemma_dec_str_newline_free(k as nat);
        lemma_newline_free_concat("_"@, dec_str(k as nat));
        lemma_decl_single_line(types, args[k - 1].0 as int, "_"@ + dec_str(k as nat));
        let sep = if k > 1 {
            ", "@
        } else {
            Seq::<char>::empty()
        };
        lemma_newline_free_concat(params_text(types, args, k - 1, bound), sep);
        lemma_newline_free_concat(
            params_text(types, args, k - 1, bound) + sep,
            type_decl(types, args[k - 1].0 as int, "_"@ + dec_str(k as nat)),
        );
    }
}

/// Law: a signature with zero parameters always renders its parameter list as
/// `(void)`, never `()`.
pub proof fn lemma_empty_params_void(types: Seq<Type>, sig: FnSig, name: Seq<char>, bound: int)
    requires
        arena_wf(types),
        0 <= bound <= types.len(),
        sig_indices_below(sig, bound),
        sig.args@.len() == 0,
    ensures
        sig_decl(types, sig, name, bound) == type_decl(
            types,
            sig.ret.0 as int,
            name + "("@ + "void"@ + ")"@,
        ),
{
}

/// Law: rendering the same `(type, name)` pair twice with the same arena
/// appends byte-identical text, whatever each sink already held.
pub proof fn lemma_rerender_identical(
    types: Seq<Type>,
    i: int,
    name: Seq<char>,
    w1: Seq<char>,
    w1_after: Seq<char>,
    w2: Seq<char>,
    w2_after: Seq<char>,
)
    requires
        w1_after == w1 + type_decl(types, i, name),
        w2_after == w2 + type_decl(types, i, name),
    ensures
        w1_after.skip(w1.len() as int) == w2_after.skip(w2.len() as int),
{
    assert(w1_after.skip(w1.len() as int) =~= type_decl(types, i, name));
    assert(w2_after.skip(w2.len() as int) =~= type_decl(types, i, name));
}

} // verus!

// A necessary piece of declarator syntax, proved for every shape: the
// synthesizer closes every parenthesis and bracket it opens.

verus! {

/// `s` holds no occurrence of `c`.
pub open spec fn char_free(s: Seq<char>, c: char) -> bool {
    forall|k: int| 0 <= k < s.len() ==> s[k] != c
}

/// `s` holds neither parentheses nor brackets.
pub open spec fn bracket_free(s: Seq<char>) -> bool {
    char_free(s, '(') && char_free(s, ')') && char_free(s, '[') && char_free(s, ']')
}

/// The number of occurrences of `c` in `s`.
pub open spec fn char_count(s: Seq<char>, c: char) -> int
    decreases s.len(),
{
    if s.len() == 0 {
        0
    } else {
        char_count(s.drop_last(), c) + (if s.last() == c {
            1int
        } else {
            0int
        })
    }
}

/// How many more `opening` than `closing` characters `s` holds.
pub open spec fn nesting_gain(s: Seq<char>, opening: char, closing: char) -> int {
    char_count(s, opening) - char_count(s, closing)
}

/// Every aggregate tag stored in the arena is free of parentheses and
/// brackets, as a syntactically valid tag is.
pub open spec fn tags_bracket_free(types: Seq<Type>) -> bool {
    forall|i: int|
        0 <= i < types.len() ==> match #[trigger] types[i] {
            Type::Struct { name } => bracket_free(name@),
            Type::FwdStruct { name } => bracket_free(name@),
            Type::FwdUnion { name } => bracket_free(name@),
            _ => true,
        }
}

pub proof fn lemma_char_count_concat(a: Seq<char>, b: Seq<char>, c: char)
    ensures
        char_count(a + b, c) == char_count(a, c) + char_count(b, c),
    decreases b.len(),
{
    if b.len() == 0 {
        assert(a + b =~= a);
    } else {
        lemma_char_count_concat(a, b.drop_last(), c);
        assert((a + b).drop_last() =~= a + b.drop_last());
        assert((a + b).last() == b.last());
    }
}

pub proof fn lemma_char_free_count(s: Seq<char>, c: char)
    requires
        char_free(s, c),
    ensures
        char_count(s, c) == 0,
    decreases s.len(),
{
    if s.len() > 0 {
        assert forall|k: int| 0 <= k < s.drop_last().len() implies s.drop_last()[k] != c by {
            assert(s.drop_last()[k] == s[k]);
        }
        lemma_char_free_count(s.drop_last(), c);
        assert(s.last() != c);
    }
}

/// Both gains distribute over concatenation.
pub proof fn lemma_gain_concat(a: Seq<char>, b: Seq<char>)
    ensures
        nesting_gain(a + b, '(', ')') == nesting_gain(a, '(', ')') + nesting_gain(b, '(', ')'),
        nesting_gain(a + b, '[', ']') == nesting_gain(a, '[', ']') + nesting_gain(b, '[', ']'),
{
    lemma_char_count_concat(a, b, '(');
    lemma_char_count_concat(a, b, ')');
    lemma_char_count_concat(a, b, '[');
    lemma_char_count_concat(a, b, ']');
}

/// A text without parentheses or brackets gains nothing.
pub proof fn lemma_bracket_free_gain(s: Seq<char>)
    requires
        bracket_free(s),
    ensures
        nesting_gain(s, '(', ')') == 0,
        nesting_gain(s, '[', ']') == 0,
{
    lemma_char_free_count(s, '(');
    lemma_char_free_count(s, ')');
    lemma_char_free_count(s, '[');
    lemma_char_free_count(s, ']');
}

pub proof fn lemma_dec_str_bracket_free(n: nat)
    ensures
        bracket_free(dec_str(n)),
    decreases n,
{
    if n < 10 {
        assert(dec_str(n) == seq![dec_digit(n as int)]);
    } else {
        lemma_dec_str_bracket_free(n / 10);
        let d = dec_digit((n % 10) as int);
        assert forall|k: int| 0 <= k < dec_str(n).len() implies dec_str(n)[k] != '(' && dec_str(
            n,
        )[k] != ')' && dec_str(n)[k] != '[' && dec_str(n)[k] != ']' by {
            if k < dec_str(n / 10).len() {
                assert(dec_str(n)[k] == dec_str(n / 10)[k]);
            } else {
                assert(dec_str(n)[k] == d);
            }
        }
    }
}

/// The gains of the short punctuation texts the synthesizer inserts.
proof fn lemma_punct_gains()
    ensures
        nesting_gain("(*"@, '(', ')') == 1 && nesting_gain("(*"@, '[', ']') == 0,
        nesting_gain(")"@, '(', ')') == -1 && nesting_gain(")"@, '[', ']') == 0,
        nesting_gain("("@, '(', ')') == 1 && nesting_gain("("@, '[', ']') == 0,
        nesting_gain("["@, '(', ')') == 0 && nesting_gain("["@, '[', ']') == 1,
        nesting_gain("]"@, '(', ')') == 0 && nesting_gain("]"@, '[', ']') == -1,
        nesting_gain("* "@, '(', ')') == 0 && nesting_gain("* "@, '[', ']') == 0,
{
    reveal_strlit("(*");
    reveal_strlit(")");
    reveal_strlit("(");
    reveal_strlit("[");
    reveal_strlit("]");
    reveal_strlit("* ");
    lemma_singleton_counts('(');
    lemma_singleton_counts('*');
    assert(char_count(Seq::<char>::empty(), '(') == 0);
    assert(char_count(Seq::<char>::empty(), ')') == 0);
    assert(char_count(Seq::<char>::empty(), '[') == 0);
    assert(char_count(Seq::<char>::empty(), ']') == 0);
    assert(("(*"@).drop_last() =~= seq!['(']);
    assert(("(*"@).last() == '*');
    assert((")"@).drop_last() =~= Seq::<char>::empty());
    assert((")"@).last() == ')');
    assert(("("@).drop_last() =~= Seq::<char>::empty());
    assert(("("@).last() == '(');
    assert(("["@).drop_last() =~= Seq::<char>::empty());
    assert(("["@).last() == '[');
    assert(("]"@).drop_last() =~= Seq::<char>::empty());
    assert(("]"@).last() == ']');
    assert(("* "@).drop_last() =~= seq!['*']);
    assert(("* "@).last() == ' ');
}

/// The counts of a one-character sequence, for each bracket character.
proof fn lemma_singleton_counts(c: char)
    ensures
        char_count(seq![c], '(') == (if c == '(' { 1int } else { 0int }),
        char_count(seq![c], ')') == (if c == ')' { 1int } else { 0int }),
        char_count(seq![c], '[') == (if c == '[' { 1int } else { 0int }),
        char_count(seq![c], ']') == (if c == ']' { 1int } else { 0int }),
{
    assert((seq![c]).drop_last() =~= Seq::<char>::empty());
    assert((seq![c]).last() == c);
    assert(char_count(Seq::<char>::empty(), '(') == 0);
    assert(char_count(Seq::<char>::empty(), ')') == 0);
    assert(char_count(Seq::<char>::empty(), '[') == 0);
    assert(char_count(Seq::<char>::empty(), ']') == 0);
}

/// Law (a necessary part of round-trip syntactic validity): a declarator
/// closes exactly as many parentheses as it opens, and exactly as many
/// brackets, beyond those its name already held.
pub proof fn lemma_decl_balance(types: Seq<Type>, i: int, name: Seq<char>)
    requires
        arena_wf(types),
        0 <= i < types.len(),
        tags_bracket_free(types),
    ensures
        nesting_gain(type_decl(types, i, name), '(', ')') == nesting_gain(name, '(', ')'),
        nesting_gain(type_decl(types, i, name), '[', ']') == nesting_gain(name, '[', ']'),
    decreases i, 2int, 0int,
{
    assert(node_wf(types[i], i));
    lemma_punct_gains();
    reveal_strlit(" ");
    match types[i] {
        Type::Pointer(p) => {
            if types[p as int] is Array {
                lemma_gain_concat("(*"@, name);
                lemma_gain_concat("(*"@ + name, ")"@);
            } else {
                lemma_gain_concat("* "@, name);
            }
            lemma_decl_balance(types, p as int, pointer_name(types, p as int, name));
        },
        Type::Array { ty, len } => {
            lemma_dec_str_bracket_free(len as nat);
            lemma_bracket_free_gain(dec_str(len as nat));
            lemma_gain_concat(name, "["@);
            lemma_gain_concat(name + "["@, dec_str(len as nat));
            lemma_gain_concat(name + "["@ + dec_str(len as nat), "]"@);
            lemma_decl_balance(types, ty as int, name + "["@ + dec_str(len as nat) + "]"@);
        },
        Type::FunctionPointer(sig) => {
            lemma_gain_concat("(*"@, name);
            lemma_gain_concat("(*"@ + name, ")"@);
            lemma_sig_balance(types, sig, "(*"@ + name + ")"@, i);
        },
        Type::Struct { name: tag } => {
            reveal_strlit("struct ");
            assert(bracket_free("struct "@));
            assert(bracket_free(" "@));
            lemma_bracket_free_gain("struct "@);
            lemma_bracket_free_gain(tag@);
            lemma_bracket_free_gain(" "@);
            lemma_gain_concat("struct "@, tag@);
            lemma_gain_concat("struct "@ + tag@, " "@);
            lemma_gain_concat("struct "@ + tag@ + " "@, name);
        },
        Type::FwdStruct { name: tag } => {
            reveal_strlit("struct ");
            assert(bracket_free("struct "@));
            assert(bracket_free(" "@));
            lemma_bracket_free_gain("struct "@);
            lemma_bracket_free_gain(tag@);
            lemma_bracket_free_gain(" "@);
            lemma_gain_concat("struct "@, tag@);
            lemma_gain_concat("struct "@ + tag@, " "@);
            lemma_gain_concat("struct "@ + tag@ + " "@, name);
        },
        Type::FwdUnion { name: tag } => {
            reveal_strlit("union ");
            assert(bracket_free("union "@));
            assert(bracket_free(" "@));
            lemma_bracket_free_gain("union "@);
            lemma_bracket_free_gain(tag@);
            lemma_bracket_free_gain(" "@);
            lemma_gain_concat("union "@, tag@);
            lemma_gain_concat("union "@ + tag@, " "@);
            lemma_gain_concat("union "@ + tag@ + " "@, name);
        },
        _ => {
            reveal_strlit("bool");
            reveal_strlit("uint8_t");
            reveal_strlit("int8_t");
            reveal_strlit("uint16_t");
            reveal_strlit("int16_t");
            reveal_strlit("uint32_t");
            reveal_strlit("int32_t");
            reveal_strlit("uint64_t");
            reveal_strlit("int64_t");
            reveal_strlit("float");
            reveal_strlit("double");
            reveal_strlit("intptr_t");
            reveal_strlit("uintptr_t");
            reveal_strlit("void");
            assert(bracket_free(scalar_keyword(types[i])));
            assert(bracket_free(" "@));
            lemma_bracket_free_gain(scalar_keyword(types[i]));
            lemma_bracket_free_gain(" "@);
            lemma_gain_concat(scalar_keyword(types[i]), " "@);
            lemma_gain_concat(scalar_keyword(types[i]) + " "@, name);
        },
    }
}

/// Law: a signature declarator is balance-preserving too.
pub proof fn lemma_sig_balance(types: Seq<Type>, sig: FnSig, name: Seq<char>, bound: int)
    requires
        arena_wf(types),
        0 <= bound <= types.len(),
        sig_indices_below(sig, bound),
        tags_bracket_free(types),
    ensures
        nesting_gain(sig_decl(types, sig, name, bound), '(', ')') == nesting_gain(name, '(', ')'),
        nesting_gain(sig_decl(types, sig, name, bound), '[', ']') == nesting_gain(name, '[', ']'),
    decreases bound, 1int, 0int,
{
    lemma_punct_gains();
    let params = if sig.args@.len() == 0 {
        "void"@
    } else {
        params_text(types, sig.args@, sig.args@.len() as int, bound)
    };
    if sig.args@.len() == 0 {
        reveal_strlit("void");
        assert(bracket_free("void"@));
        lemma_bracket_free_gain("void"@);
    } else {
        lemma_params_balance(types, sig.args@, sig.args@.len() as int, bound);
    }
    lemma_gain_concat(name, "("@);
    lemma_gain_concat(name + "("@, params);
    lemma_gain_concat(name + "("@ + params, ")"@);
    lemma_decl_balance(types, sig.ret.0 as int, name + "("@ + params + ")"@);
}

/// Law: a parameter list is balanced on its own.
pub proof fn lemma_params_balance(types: Seq<Type>, args: Seq<TypeRef>, k: int, bound: int)
    requires
        arena_wf(types),
        0 <= bound <= types.len(),
        0 <= k <= args.len(),
        forall|j: int| 0 <= j < args.len() ==> ((#[trigger] args[j]).0 as int) < bound,
        tags_bracket_free(types),
    ensures
        nesting_gain(params_text(types, args, k, bound), '(', ')') == 0,
        nesting_gain(params_text(types, args, k, bound), '[', ']') == 0,
    decreases bound, 0int, k,
{
    if k > 0 {
        reveal_strlit("_");
        reveal_strlit(", ");
        lemma_params_balance(types, args, k - 1, bound);
        lemma_dec_str_bracket_free(k as nat);
        assert(bracket_free("_"@));
        lemma_bracket_free_gain("_"@);
        lemma_bracket_free_gain(dec_str(k as nat));
        lemma_gain_concat("_"@, dec_str(k as nat));
        lemma_decl_balance(types, args[k - 1].0 as int, "_"@ + dec_str(k as nat));
        let sep = if k > 1 {
            ", "@
        } else {
            Seq::<char>::empty()
        };
        assert(bracket_free(sep));
        lemma_bracket_free_gain(sep);
        lemma_gain_concat(params_text(types, args, k - 1, bound), sep);
        lemma_gain_concat(
            params_text(types, args, k - 1, bound) + sep,
            type_decl(types, args[k - 1].0 as int, "_"@ + dec_str(k as nat)),
        );
    }
}

} // verus!
