//! Function-body builder lifecycle and emitted text.

use rustc_codegen_c::builder::function::FunctionBuilder;
use rustc_codegen_c::builder::types::{FnSig, Type, TypeArena};
use rustc_codegen_c::utils::StringWriter;

#[test]
fn declare_locals() {
    let mut arena = TypeArena::new();
    let void = arena.alloc_type(Type::Void);
    let sig = FnSig { ret: void, args: vec![] };
    let dbl = arena.alloc_type(Type::Double);
    let fnptr = arena.alloc_type(Type::FunctionPointer(FnSig { ret: void, args: vec![] }));

    let w = StringWriter::new();
    let mut f = FunctionBuilder::create(w, &arena, "declare_locals", &sig).unwrap();
    f.declare_variable(&arena, "dbl", dbl, None).unwrap();
    f.declare_variable(&arena, "f", fnptr, Some("i'm a function pointer with a comment"))
        .unwrap();
    f.finish().unwrap();
    let out = f.into_writer().0;
    assert_eq!(
        out,
        "void declare_locals(void)\n{\n    double dbl;\n    void (*f)(void);  /* i'm a function pointer with a comment */\n}\n\n"
    );
}

#[test]
fn add_function_scenario() {
    let mut arena = TypeArena::new();
    let i32_ref = arena.alloc_type(Type::I32);
    let sig = FnSig { ret: i32_ref, args: vec![i32_ref, i32_ref] };

    let w = StringWriter::new();
    let mut f = FunctionBuilder::create(w, &arena, "add", &sig).unwrap();
    f.finish().unwrap();
    let out = f.into_writer().0;
    assert_eq!(out, "int32_t add(int32_t _1, int32_t _2)\n{\n}\n\n");
}

#[test]
fn body_lines_match_call_order() {
    let mut arena = TypeArena::new();
    let void = arena.alloc_type(Type::Void);
    let u8_ref = arena.alloc_type(Type::U8);
    let i64_ref = arena.alloc_type(Type::I64);
    let b = arena.alloc_type(Type::Bool);
    let sig = FnSig { ret: void, args: vec![] };

    let w = StringWriter::new();
    let mut f = FunctionBuilder::create(w, &arena, "locals", &sig).unwrap();
    f.declare_variable(&arena, "first", u8_ref, None).unwrap();
    f.declare_variable(&arena, "second", i64_ref, None).unwrap();
    f.declare_variable(&arena, "third", b, None).unwrap();
    f.finish().unwrap();
    let out = f.into_writer().0;

    // two header lines, one line per call in call order, one closing line,
    // one blank separator line
    let lines: Vec<&str> = out.lines().collect();
    assert_eq!(lines.len(), 7);
    assert_eq!(lines[0], "void locals(void)");
    assert_eq!(lines[1], "{");
    assert_eq!(lines[2], "    uint8_t first;");
    assert_eq!(lines[3], "    int64_t second;");
    assert_eq!(lines[4], "    bool third;");
    assert_eq!(lines[5], "}");
    assert_eq!(lines[6], "");
    assert!(out.ends_with("}\n\n"));
}

#[test]
fn parameters_materialize_as_variables() {
    let mut arena = TypeArena::new();
    let i32_ref = arena.alloc_type(Type::I32);
    let u64_ref = arena.alloc_type(Type::U64);
    let sig = FnSig { ret: i32_ref, args: vec![i32_ref, u64_ref] };

    let w = StringWriter::new();
    let mut f = FunctionBuilder::create(w, &arena, "args_fn", &sig).unwrap();
    assert_eq!(f.args.len(), 2);
    assert_eq!(f.args[0].name(), "_0");
    assert_eq!(f.args[1].name(), "_1");
    assert_eq!(f.args[0].ty().0, i32_ref.0);
    assert_eq!(f.args[1].ty().0, u64_ref.0);
    f.finish().unwrap();
}

#[test]
fn declared_names_are_tracked() {
    let mut arena = TypeArena::new();
    let void = arena.alloc_type(Type::Void);
    let u8_ref = arena.alloc_type(Type::U8);
    let sig = FnSig { ret: void, args: vec![] };

    let w = StringWriter::new();
    let mut f = FunctionBuilder::create(w, &arena, "tracked", &sig).unwrap();
    assert!(!f.has_local("x"));
    let v = f.declare_variable(&arena, "x", u8_ref, None).unwrap();
    assert_eq!(v.name(), "x");
    assert_eq!(v.ty().0, u8_ref.0);
    assert!(f.has_local("x"));
    assert!(!f.has_local("y"));
    f.finish().unwrap();
    assert!(f.finished());
}

#[test]
fn builder_starts_unfinished() {
    let mut arena = TypeArena::new();
    let void = arena.alloc_type(Type::Void);
    let sig = FnSig { ret: void, args: vec![] };

    let w = StringWriter::new();
    let mut f = FunctionBuilder::create(w, &arena, "open_only", &sig).unwrap();
    assert!(!f.finished());
    f.finish().unwrap();
    assert!(f.finished());
    let out = f.into_writer().0;
    assert_eq!(out, "void open_only(void)\n{\n}\n\n");
}
