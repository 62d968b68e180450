//! Function-body builder.
//!
//! A builder is bound to one function: it writes the opening signature and
//! brace on creation, accepts local-variable declarations (each flushed
//! immediately), and must be explicitly finished, which writes the closing
//! text. Every write lands in the sink at the point of the call, so the
//! emitted text is exactly the call order.

use crate::builder::types::{
    dec_str, sig_decl, sig_indices_below, type_decl, FnSig, Type, TypeArena, TypeRef,
};
use crate::utils::{StringWriter, WriteError, WriteStr};
use vstd::prelude::*;
use vstd::string::StringExecFns;

verus! {

/// The set of raw local names a builder has declared, kept for collision
/// diagnostics. Backed by a hash set of an outside crate, so the struct is
/// opaque to verification and spoken of only through `declared_names`.
#[verifier::external_body]
pub struct NameSet {
    set: hashbrown::HashSet<String>,
}

/// What a `NameSet` holds.
pub uninterp spec fn declared_names(s: NameSet) -> Set<Seq<char>>;

/// Relies on `hashbrown::HashSet::new`: creates an empty set.
#[verifier::external_body]
fn name_set_new() -> (s: NameSet)
    ensures
        declared_names(s) == Set::<Seq<char>>::empty(),
{
    NameSet { set: hashbrown::HashSet::new() }
}

/// Relies on `hashbrown::HashSet::insert`: after the call the set holds
/// `name` besides everything it already held.
#[verifier::external_body]
fn name_set_insert(s: &mut NameSet, name: &str)
    ensures
        declared_names(*final(s)) == declared_names(*old(s)).insert(name@),
{
    s.set.insert(name.to_string());
}

/// Relies on `hashbrown::HashSet::contains`: whether the set holds `name`.
#[verifier::external_body]
fn name_set_contains(s: &NameSet, name: &str) -> (r: bool)
    ensures
        r == declared_names(*s).contains(name@),
{
    s.set.contains(name)
}

/// A local variable.
///
/// These can be created in two ways: by opening a function taking arguments
/// (which creates the `Variable`s corresponding to the arguments), or by
/// calling `declare_variable` on an existing `FunctionBuilder`, which
/// declares a new local variable inside the function.
#[derive(Debug, Clone)]
pub struct Variable {
    name: String,
    ty: TypeRef,
}

impl Variable {
    /// The variable's raw name.
    pub closed spec fn spec_name(&self) -> Seq<char> {
        self.name@
    }

    /// The variable's type.
    pub closed spec fn spec_ty(&self) -> TypeRef {
        self.ty
    }

    pub fn name(&self) -> (r: &str)
        ensures
            r@ == self.spec_name(),
    {
        self.name.as_str()
    }

    pub fn ty(&self) -> (r: TypeRef)
        ensures
            r == self.spec_ty(),
    {
        self.ty
    }
}

/// The text `create` flushes: the signature, a newline, and the opening brace.
pub open spec fn function_header_text(types: Seq<Type>, proto: FnSig, name: Seq<char>) -> Seq<
    char,
> {
    sig_decl(types, proto, name, types.len() as int) + "\n"@ + "{\n"@
}

/// The line `declare_variable` flushes: an indented declarator, `;`, an
/// optional inline comment, and a newline.
pub open spec fn local_line_text(
    types: Seq<Type>,
    ty: TypeRef,
    name: Seq<char>,
    comment: Option<Seq<char>>,
) -> Seq<char> {
    "    "@ + type_decl(types, ty.0 as int, name) + ";"@ + (match comment {
        Some(c) => "  /* "@ + c + " */"@,
        None => Seq::<char>::empty(),
    }) + "\n"@
}

/// The text `finish` flushes: the closing brace and a blank separator line.
pub open spec fn function_footer_text() -> Seq<char> {
    "}\n\n"@
}

/// Builder for function bodies.
///
/// Lifecycle: created by opening a function (header flushed immediately);
/// locals added incrementally; closed exactly once by `finish`. A builder
/// that never reaches `finish` leaves a truncated, invalid function behind,
/// which the caller must treat as a fatal programming error.
pub struct FunctionBuilder<W: WriteStr> {
    /// Output statements are written to this writer.
    writer: W,
    declared_locals: NameSet,
    done: bool,
    /// Function arguments, available as declared `Variable`s.
    pub args: Vec<Variable>,
}

impl<W: WriteStr> FunctionBuilder<W> {
    /// Everything written to the builder's sink so far.
    pub closed spec fn contents(&self) -> Seq<char> {
        self.writer.contents()
    }

    /// Whether the underlying sink accepts every write.
    pub closed spec fn reliable(&self) -> bool {
        self.writer.reliable()
    }

    /// Whether `finish` has closed this builder.
    pub closed spec fn is_finished(&self) -> bool {
        self.done
    }

    /// The raw names of the locals declared so far.
    pub closed spec fn locals(&self) -> Set<Seq<char>> {
        declared_names(self.declared_locals)
    }

    /// The parameter `Variable`s, in order.
    pub closed spec fn spec_args(&self) -> Seq<Variable> {
        self.args@
    }

    pub fn finished(&self) -> (r: bool)
        ensures
            r == self.is_finished(),
    {
        self.done
    }

    /// Whether a local of this raw name was already declared; lets a caller
    /// check for name collisions, which this layer itself does not reject.
    pub fn has_local(&self, name: &str) -> (r: bool)
        ensures
            r == self.locals().contains(name@),
    {
        name_set_contains(&self.declared_locals, name)
    }

    /// Creates a function builder, writing the function's header to `writer`.
    ///
    /// One `Variable` per parameter is materialized up front, with zero-based
    /// sequential names. You *must* call `finish` on the builder to close the
    /// function being built.
    pub fn create(writer: W, arena: &TypeArena, name: &str, proto: &FnSig) -> (r: Result<
        FunctionBuilder<W>,
        WriteError,
    >)
        requires
            arena.wf(),
            sig_indices_below(*proto, arena@.len() as int),
        ensures
            r matches Ok(b) ==> {
                &&& b.contents() == writer.contents() + function_header_text(
                    arena@,
                    *proto,
                    name@,
                )
                &&& !b.is_finished()
                &&& b.locals() == Set::<Seq<char>>::empty()
                &&& b.reliable() == writer.reliable()
                &&& b.spec_args().len() == proto.args@.len()
                &&& forall|j: int|
                    0 <= j < proto.args@.len() ==> (#[trigger] b.spec_args()[j]).spec_ty()
                        == proto.args@[j] && b.spec_args()[j].spec_name() == "_"@ + dec_str(
                        j as nat,
                    )
            },
            writer.reliable() ==> r is Ok,
    {
        let mut w = writer;
        proto.declare(arena, name, &mut w)?;
        w.write_str("\n")?;
        w.write_str("{\n")?;
        let mut args: Vec<Variable> = Vec::new();
        let n: usize = proto.args.len();
        let mut j: usize = 0;
        while j < n
            invariant
                n == proto.args@.len(),
                j <= n,
                args@.len() == j,
                forall|k: int|
                    0 <= k < j ==> (#[trigger] args@[k]).spec_ty() == proto.args@[k]
                        && args@[k].spec_name() == "_"@ + dec_str(k as nat),
            decreases n - j,
        {
            let mut nb = StringWriter::new();
            nb.push_str("_");
            crate::builder::types::push_dec(j, &mut nb);
            proof {
                assert(nb.0@ =~= "_"@ + dec_str(j as nat));
            }
            args.push(Variable { name: nb.0, ty: proto.args[j] });
            j += 1;
        }
        let b = FunctionBuilder {
            writer: w,
            declared_locals: name_set_new(),
            done: false,
            args,
        };
        proof {
            assert(b.contents() =~= writer.contents() + function_header_text(
                arena@,
                *proto,
                name@,
            ));
        }
        Ok(b)
    }

    fn indent(&mut self) -> (r: Result<(), WriteError>)
        ensures
            r is Ok ==> final(self).contents() == old(self).contents() + "    "@,
            final(self).reliable() == old(self).reliable(),
            old(self).reliable() ==> r is Ok,
            final(self).is_finished() == old(self).is_finished(),
            final(self).locals() == old(self).locals(),
            final(self).spec_args() == old(self).spec_args(),
    {
        self.writer.write_str("    ")
    }

    /// Declares a new local variable at the current position, flushing one
    /// indented line, and hands back the `Variable` for later emission
    /// stages. The raw name is recorded in the builder's name set.
    pub fn declare_variable(
        &mut self,
        arena: &TypeArena,
        name: &str,
        ty: TypeRef,
        comment: Option<&str>,
    ) -> (r: Result<Variable, WriteError>)
        requires
            !old(self).is_finished(),
            arena.wf(),
            (ty.0 as int) < arena@.len(),
        ensures
            r matches Ok(v) ==> {
                &&& final(self).contents() == old(self).contents() + local_line_text(
                    arena@,
                    ty,
                    name@,
                    comment.deep_view(),
                )
                &&& v.spec_name() == name@
                &&& v.spec_ty() == ty
                &&& final(self).locals() == old(self).locals().insert(name@)
            },
            !final(self).is_finished(),
            final(self).reliable() == old(self).reliable(),
            final(self).spec_args() == old(self).spec_args(),
            old(self).reliable() ==> r is Ok,
    {
        self.indent()?;
        ty.declare_variable(arena, name, &mut self.writer)?;
        self.writer.write_str(";")?;
        if let Some(c) = comment {
            self.writer.write_str("  /* ")?;
            self.writer.write_str(c)?;
            self.writer.write_str(" */")?;
        }
        self.writer.write_str("\n")?;
        name_set_insert(&mut self.declared_locals, name);
        let v = Variable { name: String::from_str(name), ty };
        proof {
            assert(self.contents() =~= old(self).contents() + local_line_text(
                arena@,
                ty,
                name@,
                comment.deep_view(),
            ));
        }
        Ok(v)
    }

    /// Closes the in-progress function definition, writing the closing brace
    /// and a blank separator line. After this the builder is inert: any
    /// further declaration call is a contract violation.
    pub fn finish(&mut self) -> (r: Result<(), WriteError>)
        requires
            !old(self).is_finished(),
        ensures
            r is Ok ==> final(self).contents() == old(self).contents() + function_footer_text()
                && final(self).is_finished(),
            r is Err ==> !final(self).is_finished(),
            final(self).reliable() == old(self).reliable(),
            final(self).locals() == old(self).locals(),
            final(self).spec_args() == old(self).spec_args(),
            old(self).reliable() ==> r is Ok,
    {
        self.writer.write_str("}\n")?;
        self.writer.write_str("\n")?;
        self.done = true;
        proof {
            reveal_strlit("}\n");
            reveal_strlit("\n");
            reveal_strlit("}\n\n");
            assert(self.contents() =~= old(self).contents() + function_footer_text());
        }
        Ok(())
    }

    /// Hands the sink back, with everything the builder wrote in it.
    pub fn into_writer(self) -> (w: W)
        ensures
            w.contents() == self.contents(),
            w.reliable() == self.reliable(),
    {
        self.writer
    }
}

} // verus!

// Properties of the builder's emitted text.

verus! {

/// The body text a sequence of `declare_variable` calls flushes: one line per
/// call, in call order. Each entry is the call's type, name, and comment.
pub open spec fn locals_text(
    types: Seq<Type>,
    decls: Seq<(TypeRef, Seq<char>, Option<Seq<char>>)>,
) -> Seq<char>
    decreases decls.len(),
{
    if decls.len() == 0 {
        Seq::<char>::empty()
    } else {
        locals_text(types, decls.drop_last()) + local_line_text(
            types,
            decls.last().0,
            decls.last().1,
            decls.last().2,
        )
    }
}

/// Law: one `declare_variable` call flushes exactly one line, ending in the
/// newline, provided the declared name and the comment span no lines.
pub proof fn lemma_local_line_single(
    types: Seq<Type>,
    ty: TypeRef,
    name: Seq<char>,
    comment: Option<Seq<char>>,
)
    requires
        crate::builder::types::arena_wf(types),
        (ty.0 as int) < types.len(),
        crate::builder::types::tags_newline_free(types),
        crate::builder::types::newline_free(name),
        comment matches Some(c) ==> crate::builder::types::newline_free(c),
    ensures
        crate::builder::types::line_count(local_line_text(types, ty, name, comment)) == 1,
        local_line_text(types, ty, name, comment).last() == '\n',
{
    reveal_strlit("    ");
    reveal_strlit(";");
    reveal_strlit("  /* ");
    reveal_strlit(" */");
    reveal_strlit("\n");
    crate::builder::types::lemma_decl_single_line(types, ty.0 as int, name);
    let decl = type_decl(types, ty.0 as int, name);
    let ctext = match comment {
        Some(c) => "  /* "@ + c + " */"@,
        None => Seq::<char>::empty(),
    };
    crate::builder::types::lemma_newline_free_concat("    "@, decl);
    crate::builder::types::lemma_newline_free_concat("    "@ + decl, ";"@);
    match comment {
        Some(c) => {
            crate::builder::types::lemma_newline_free_concat("  /* "@, c);
            crate::builder::types::lemma_newline_free_concat("  /* "@ + c, " */"@);
        },
        None => {},
    }
    crate::builder::types::lemma_newline_free_concat("    "@ + decl + ";"@, ctext);
    let prefix = "    "@ + decl + ";"@ + ctext;
    crate::builder::types::lemma_newline_free_no_lines(prefix);
    crate::builder::types::lemma_line_count_concat(prefix, "\n"@);
    assert("\n"@.drop_last() =~= Seq::<char>::empty());
    assert(crate::builder::types::line_count(Seq::<char>::empty()) == 0);
    assert("\n"@.len() == 1 && "\n"@.last() == '\n');
    assert(crate::builder::types::line_count("\n"@) == crate::builder::types::line_count(
        "\n"@.drop_last(),
    ) + 1);
    assert(crate::builder::types::line_count("\n"@) == 1);
    assert((prefix + "\n"@).last() == '\n');
}

/// Law: a sequence of N `declare_variable` calls followed by `finish`
/// produces a body of exactly N lines between the braces, one per call and in
/// call order: the flushed text is the concatenation of the calls' lines.
pub proof fn lemma_body_line_count(
    types: Seq<Type>,
    decls: Seq<(TypeRef, Seq<char>, Option<Seq<char>>)>,
)
    requires
        crate::builder::types::arena_wf(types),
        crate::builder::types::tags_newline_free(types),
        forall|q: int|
            0 <= q < decls.len() ==> (((#[trigger] decls[q]).0.0 as int) < types.len()
                && crate::builder::types::newline_free(decls[q].1) && (decls[q].2 matches Some(c)
                ==> crate::builder::types::newline_free(c))),
    ensures
        crate::builder::types::line_count(locals_text(types, decls)) == decls.len(),
    decreases decls.len(),
{
    if decls.len() > 0 {
        assert forall|q: int| 0 <= q < decls.drop_last().len() implies ((((
        #[trigger] decls.drop_last()[q]).0.0 as int) < types.len()
            && crate::builder::types::newline_free(decls.drop_last()[q].1) && (
        decls.drop_last()[q].2 matches Some(c)
            ==> crate::builder::types::newline_free(c)))) by {
            assert(decls.drop_last()[q] == decls[q]);
        }
        lemma_body_line_count(types, decls.drop_last());
        lemma_local_line_single(types, decls.last().0, decls.last().1, decls.last().2);
        crate::builder::types::lemma_line_count_concat(
            locals_text(types, decls.drop_last()),
            local_line_text(types, decls.last().0, decls.last().1, decls.last().2),
        );
        assert(decls.last() == decls[decls.len() - 1]);
    }
}

} // verus!

verus! {

/// Law: a function opened with `create`, filled by a sequence of
/// `declare_variable` calls, and closed by `finish` emits exactly
/// `decls.len() + 4` lines: two for the header, one per call in call order,
/// and two for the footer.
pub proof fn lemma_function_line_count(
    types: Seq<Type>,
    proto: FnSig,
    name: Seq<char>,
    decls: Seq<(TypeRef, Seq<char>, Option<Seq<char>>)>,
)
    requires
        crate::builder::types::arena_wf(types),
        crate::builder::types::tags_newline_free(types),
        crate::builder::types::newline_free(name),
        sig_indices_below(proto, types.len() as int),
        forall|q: int|
            0 <= q < decls.len() ==> (((#[trigger] decls[q]).0.0 as int) < types.len()
                && crate::builder::types::newline_free(decls[q].1) && (decls[q].2 matches Some(c)
                ==> crate::builder::types::newline_free(c))),
    ensures
        crate::builder::types::line_count(
            function_header_text(types, proto, name) + locals_text(types, decls)
                + function_footer_text(),
        ) == decls.len() + 4,
{
    reveal_strlit("\n");
    reveal_strlit("{\n");
    reveal_strlit("}\n\n");
    let sig_text = sig_decl(types, proto, name, types.len() as int);
    crate::builder::types::lemma_sig_single_line(types, proto, name, types.len() as int);
    crate::builder::types::lemma_newline_free_no_lines(sig_text);
    // each punctuation text's own line count
    assert(("\n"@).drop_last() =~= Seq::<char>::empty());
    assert(crate::builder::types::line_count(Seq::<char>::empty()) == 0);
    assert(("\n"@).last() == '\n');
    assert(crate::builder::types::line_count("\n"@) == 1);
    assert(("{\n"@).drop_last() =~= seq!['{']);
    assert((seq!['{']).drop_last() =~= Seq::<char>::empty());
    assert((seq!['{']).last() == '{');
    assert(crate::builder::types::line_count(seq!['{']) == 0);
    assert(("{\n"@).last() == '\n');
    assert(crate::builder::types::line_count("{\n"@) == 1);
    assert(("}\n\n"@).drop_last() =~= seq!['}', '\n']);
    assert((seq!['}', '\n']).drop_last() =~= seq!['}']);
    assert((seq!['}']).drop_last() =~= Seq::<char>::empty());
    assert((seq!['}']).last() == '}');
    assert((seq!['}', '\n']).last() == '\n');
    assert(crate::builder::types::line_count(seq!['}']) == 0);
    assert(crate::builder::types::line_count(seq!['}', '\n']) == 1);
    assert(("}\n\n"@).last() == '\n');
    assert(crate::builder::types::line_count("}\n\n"@) == 2);
    // header = signature + "\n" + "{\n": two lines
    crate::builder::types::lemma_line_count_concat(sig_text, "\n"@);
    crate::builder::types::lemma_line_count_concat(sig_text + "\n"@, "{\n"@);
    assert(crate::builder::types::line_count(function_header_text(types, proto, name)) == 2);
    // body: one line per declaration
    lemma_body_line_count(types, decls);
    // whole text
    crate::builder::types::lemma_line_count_concat(
        function_header_text(types, proto, name),
        locals_text(types, decls),
    );
    crate::builder::types::lemma_line_count_concat(
        function_header_text(types, proto, name) + locals_text(types, decls),
        function_footer_text(),
    );
}

} // verus!
