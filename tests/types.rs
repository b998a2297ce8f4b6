use kmm0::assembler::AssemblyError;
use kmm0::types::{Expr, VarType};

#[test]
fn scalar_sizes() {
    assert_eq!(VarType::U8.size(), 1);
    assert_eq!(VarType::I16.size(), 2);
    assert_eq!(VarType::U32.size(), 4);
    assert_eq!(VarType::I64.size(), 8);
    assert_eq!(VarType::SlimPtr.size(), 4);
    assert_eq!(VarType::Ptr(Box::new(VarType::U8)).size(), 8);
    assert_eq!(VarType::Func(vec![VarType::U64], Box::new(VarType::U64)).size(), 4);
}

#[test]
fn compound_sizes() {
    let s = VarType::Struct(vec![VarType::U8, VarType::U32, VarType::I64]);
    assert_eq!(s.size(), 13);
    let a = VarType::Array(Box::new(VarType::Tuple(vec![VarType::U16, VarType::U16])), 10);
    assert_eq!(a.size(), 40);
    assert_eq!(VarType::Struct(vec![]).size(), 0);
    assert_eq!(VarType::Array(Box::new(VarType::Struct(vec![])), usize::MAX).size(), 0);
}

#[test]
fn same_types_compare_structurally() {
    let a = VarType::Struct(vec![VarType::U8, VarType::Array(Box::new(VarType::I32), 3)]);
    let b = a.duplicate();
    assert!(a.same_type(&b));
    let c = VarType::Struct(vec![VarType::U8, VarType::Array(Box::new(VarType::I32), 4)]);
    assert!(!a.same_type(&c));
    assert!(!VarType::Struct(vec![VarType::U8]).same_type(&VarType::Tuple(vec![VarType::U8])));
    assert!(!VarType::Struct(vec![VarType::U8]).same_type(&VarType::Struct(vec![VarType::U8, VarType::U8])));
}

#[test]
fn expression_types() {
    let e = Expr::Add(Box::new(Expr::Const(VarType::U32)), Box::new(Expr::TypeCast(VarType::U32)));
    assert!(e.get_type().unwrap().same_type(&VarType::U32));
    let bad = Expr::Mul(Box::new(Expr::Const(VarType::U32)), Box::new(Expr::Const(VarType::U8)));
    assert!(matches!(bad.get_type(), Err(AssemblyError::TypeMismatch)));
    let nested = Expr::Sub(Box::new(bad), Box::new(Expr::Const(VarType::U8)));
    assert!(matches!(nested.get_type(), Err(AssemblyError::TypeMismatch)));
}
