//! Spiral-rule declarator rendering, on concrete type shapes.

use rustc_codegen_c::builder::types::{AsType, FnSig, IncompleteTypeRef, Type, TypeArena, TypeRef};
use rustc_codegen_c::utils::StringWriter;

fn render(arena: &TypeArena, ty: TypeRef, name: &str) -> String {
    let mut w = StringWriter::new();
    ty.declare_variable(arena, name, &mut w).unwrap();
    w.0
}

#[test]
fn pointer_to_scalar() {
    let mut arena = TypeArena::new();
    let i32_ref = arena.alloc_type(Type::I32);
    let ptr = arena.alloc_type(Type::Pointer(i32_ref.0));
    assert_eq!(render(&arena, ptr, "x"), "int32_t * x");
}

#[test]
fn array_of_scalar() {
    let mut arena = TypeArena::new();
    let i32_ref = arena.alloc_type(Type::I32);
    let arr = arena.alloc_type(Type::Array { ty: i32_ref.0, len: 4 });
    assert_eq!(render(&arena, arr, "x"), "int32_t x[4]");
}

#[test]
fn pointer_to_array_needs_parens() {
    let mut arena = TypeArena::new();
    let i32_ref = arena.alloc_type(Type::I32);
    let arr = arena.alloc_type(Type::Array { ty: i32_ref.0, len: 4 });
    let ptr = arena.alloc_type(Type::Pointer(arr.0));
    assert_eq!(render(&arena, ptr, "x"), "int32_t (*x)[4]");
}

#[test]
fn function_pointer_no_params() {
    let mut arena = TypeArena::new();
    let void = arena.alloc_type(Type::Void);
    let fnptr = arena.alloc_type(Type::FunctionPointer(FnSig { ret: void, args: vec![] }));
    assert_eq!(render(&arena, fnptr, "f"), "void (*f)(void)");
}

#[test]
fn function_pointer_returning_pointer() {
    let mut arena = TypeArena::new();
    let i32_ref = arena.alloc_type(Type::I32);
    let ptr = arena.alloc_type(Type::Pointer(i32_ref.0));
    let fnptr = arena.alloc_type(Type::FunctionPointer(FnSig {
        ret: ptr,
        args: vec![i32_ref],
    }));
    assert_eq!(render(&arena, fnptr, "f"), "int32_t * (*f)(int32_t _1)");
}

#[test]
fn empty_parameter_list_renders_void() {
    let mut arena = TypeArena::new();
    let void = arena.alloc_type(Type::Void);
    let sig = FnSig { ret: void, args: vec![] };
    let mut w = StringWriter::new();
    sig.declare(&arena, "g", &mut w).unwrap();
    assert_eq!(w.0, "void g(void)");
    assert!(!w.0.contains("()"));
}

#[test]
fn multi_parameter_list_is_one_based() {
    let mut arena = TypeArena::new();
    let u8_ref = arena.alloc_type(Type::U8);
    let b = arena.alloc_type(Type::Bool);
    let sig = FnSig { ret: b, args: vec![u8_ref, b, u8_ref] };
    let mut w = StringWriter::new();
    sig.declare(&arena, "h", &mut w).unwrap();
    assert_eq!(w.0, "bool h(uint8_t _1, bool _2, uint8_t _3)");
}

#[test]
fn rerender_is_byte_identical() {
    let mut arena = TypeArena::new();
    let i64_ref = arena.alloc_type(Type::I64);
    let arr = arena.alloc_type(Type::Array { ty: i64_ref.0, len: 12 });
    let ptr = arena.alloc_type(Type::Pointer(arr.0));
    let first = render(&arena, ptr, "p");
    let second = render(&arena, ptr, "p");
    assert_eq!(first, second);
}

#[test]
fn aggregates_and_unions() {
    let mut arena = TypeArena::new();
    let s = arena.alloc_type(Type::Struct { name: String::from("Node") });
    assert_eq!(render(&arena, s, "n"), "struct Node n");
    let fwd = arena.alloc_incomplete(Type::FwdStruct { name: String::from("Opaque") });
    let fwd_ptr = arena.alloc_type(Type::Pointer(fwd.0));
    assert_eq!(render(&arena, fwd_ptr, "o"), "struct Opaque * o");
    let u = arena.alloc_incomplete(Type::FwdUnion { name: String::from("Either") });
    let u_ptr = arena.alloc_type(Type::Pointer(u.0));
    assert_eq!(render(&arena, u_ptr, "e"), "union Either * e");
}

#[test]
fn nested_pointer_array_combinations() {
    let mut arena = TypeArena::new();
    let i32_ref = arena.alloc_type(Type::I32);
    // array of pointers: no parentheses needed
    let ptr = arena.alloc_type(Type::Pointer(i32_ref.0));
    let arr_of_ptr = arena.alloc_type(Type::Array { ty: ptr.0, len: 3 });
    assert_eq!(render(&arena, arr_of_ptr, "x"), "int32_t * x[3]");
    // pointer to pointer to array: parentheses around both stars
    let arr = arena.alloc_type(Type::Array { ty: i32_ref.0, len: 4 });
    let p1 = arena.alloc_type(Type::Pointer(arr.0));
    let p2 = arena.alloc_type(Type::Pointer(p1.0));
    assert_eq!(render(&arena, p2, "x"), "int32_t (** x)[4]");
}

#[test]
fn scalar_keywords() {
    let mut arena = TypeArena::new();
    let cases = vec![
        (Type::Bool, "bool b"),
        (Type::U8, "uint8_t b"),
        (Type::I8, "int8_t b"),
        (Type::U16, "uint16_t b"),
        (Type::I16, "int16_t b"),
        (Type::U32, "uint32_t b"),
        (Type::I32, "int32_t b"),
        (Type::U64, "uint64_t b"),
        (Type::I64, "int64_t b"),
        (Type::Float, "float b"),
        (Type::Double, "double b"),
        (Type::IntPtr, "intptr_t b"),
        (Type::UintPtr, "uintptr_t b"),
    ];
    for (ty, expected) in cases {
        let r = arena.alloc_type(ty);
        assert_eq!(render(&arena, r, "b"), expected);
    }
}

#[test]
fn large_array_length_renders_in_decimal() {
    let mut arena = TypeArena::new();
    let u64_ref = arena.alloc_type(Type::U64);
    let arr = arena.alloc_type(Type::Array { ty: u64_ref.0, len: 1048576 });
    assert_eq!(render(&arena, arr, "big"), "uint64_t big[1048576]");
    let zero = arena.alloc_type(Type::Array { ty: u64_ref.0, len: 0 });
    assert_eq!(render(&arena, zero, "none"), "uint64_t none[0]");
}

#[test]
fn empty_name_renders_bare_type() {
    let mut arena = TypeArena::new();
    let i32_ref = arena.alloc_type(Type::I32);
    assert_eq!(render(&arena, i32_ref, ""), "int32_t ");
    assert_eq!(i32_ref.describe(&arena), "int32_t ");
}

#[test]
fn as_type_exposes_the_index() {
    let mut arena = TypeArena::new();
    let c = arena.alloc_type(Type::I16);
    let inc = arena.alloc_incomplete(Type::FwdStruct { name: String::from("Late") });
    assert_eq!(c.as_type(), 0);
    assert_eq!(IncompleteTypeRef(inc.0).as_type(), 1);
    assert_eq!(arena.len(), 2);
}

#[test]
fn parentheses_and_brackets_balance() {
    // pointer to array of function pointers taking an array pointer
    let mut arena = TypeArena::new();
    let i32_ref = arena.alloc_type(Type::I32);
    let arr = arena.alloc_type(Type::Array { ty: i32_ref.0, len: 4 });
    let arr_ptr = arena.alloc_type(Type::Pointer(arr.0));
    let fnptr = arena.alloc_type(Type::FunctionPointer(FnSig {
        ret: i32_ref,
        args: vec![arr_ptr],
    }));
    let fn_arr = arena.alloc_type(Type::Array { ty: fnptr.0, len: 2 });
    let deep = arena.alloc_type(Type::Pointer(fn_arr.0));
    let out = render(&arena, deep, "x");
    assert_eq!(out, "int32_t (*(*x)[2])(int32_t (*_1)[4])");
    let opens = out.chars().filter(|c| *c == '(').count();
    let closes = out.chars().filter(|c| *c == ')').count();
    assert_eq!(opens, closes);
    let lopens = out.chars().filter(|c| *c == '[').count();
    let lcloses = out.chars().filter(|c| *c == ']').count();
    assert_eq!(lopens, lcloses);
}

