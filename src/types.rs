//! Types of structured variables and of expressions over them.
use vstd::prelude::*;
use crate::assembler::AssemblyError;

verus! {

/// The type of a variable.
#[derive(Debug)]
pub enum VarType {
    U8,
    U16,
    U32,
    U64,
    I8,
    I16,
    I32,
    I64,
    /// A bare pointer: `[ptr:4]`.
    SlimPtr,
    /// A pointer that carries its target type: `[ptr:4][type:4]`.
    Ptr(Box<VarType>),
    Struct(Vec<VarType>),
    Array(Box<VarType>, usize),
    Tuple(Vec<VarType>),
    Func(Vec<VarType>, Box<VarType>),
}

/// The size in bytes of a value of type `t`.
pub open spec fn type_size(t: VarType) -> int
    decreases t,
{
    match t {
        VarType::U8 | VarType::I8 => 1,
        VarType::U16 | VarType::I16 => 2,
        VarType::U32 | VarType::I32 | VarType::SlimPtr | VarType::Func(_, _) => 4,
        VarType::U64 | VarType::I64 | VarType::Ptr(_) => 8,
        VarType::Struct(n) => sum_sizes(n@),
        VarType::Array(e, k) => type_size(*e) * k,
        VarType::Tuple(n) => sum_sizes(n@),
    }
}

/// The total size of the types in `s`.
pub open spec fn sum_sizes(s: Seq<VarType>) -> int
    decreases s,
{
    if s.len() == 0 {
        0
    } else {
        sum_sizes(s.drop_last()) + type_size(s.last())
    }
}

/// Whether the size of `t`, and of every type within it that its size is made of, fits in a
/// `u32`.
pub open spec fn size_fits(t: VarType) -> bool
    decreases t,
{
    match t {
        VarType::Struct(n) | VarType::Tuple(n) => all_sizes_fit(n@) && sum_sizes(n@) <= u32::MAX,
        VarType::Array(e, k) => size_fits(*e) && type_size(*e) * k <= u32::MAX,
        _ => true,
    }
}

/// Whether `size_fits` holds of every type in `s`.
pub open spec fn all_sizes_fit(s: Seq<VarType>) -> bool
    decreases s,
{
    if s.len() == 0 {
        true
    } else {
        all_sizes_fit(s.drop_last()) && size_fits(s.last())
    }
}

/// Sizes are never negative.
proof fn lemma_size_nonneg(t: VarType)
    ensures
        type_size(t) >= 0,
    decreases t,
{
    match t {
        VarType::Struct(n) | VarType::Tuple(n) => lemma_sum_nonneg(n@),
        VarType::Array(e, k) => {
            lemma_size_nonneg(*e);
            assert(type_size(*e) * k >= 0) by (nonlinear_arith)
                requires
                    type_size(*e) >= 0,
                    k >= 0,
            ;
        },
        _ => {},
    }
}

proof fn lemma_sum_nonneg(s: Seq<VarType>)
    ensures
        sum_sizes(s) >= 0,
    decreases s,
{
    if s.len() > 0 {
        lemma_sum_nonneg(s.drop_last());
        lemma_size_nonneg(s.last());
    }
}

/// A prefix of `s` never weighs more than `s`, and every member of an all-fitting sequence fits.
proof fn lemma_prefix_sum(s: Seq<VarType>, i: int)
    requires
        0 <= i <= s.len(),
    ensures
        sum_sizes(s.take(i)) <= sum_sizes(s),
        all_sizes_fit(s) ==> all_sizes_fit(s.take(i)),
    decreases s.len(),
{
    if i == s.len() {
        assert(s.take(i) =~= s);
    } else {
        lemma_prefix_sum(s.drop_last(), i);
        assert(s.drop_last().take(i) =~= s.take(i));
        lemma_size_nonneg(s.last());
    }
}

/// Each member of an all-fitting sequence fits.
proof fn lemma_member_fits(s: Seq<VarType>, i: int)
    requires
        0 <= i < s.len(),
        all_sizes_fit(s),
    ensures
        size_fits(s[i]),
    decreases s.len(),
{
    if i < s.len() - 1 {
        lemma_member_fits(s.drop_last(), i);
    }
}

impl VarType {
    /// The size in bytes of a value of this type.
    pub fn size(&self) -> (r: u32)
        requires
            size_fits(*self),
        ensures
            r == type_size(*self),
        decreases self,
    {
        match self {
            VarType::U8 | VarType::I8 => 1,
            VarType::U16 | VarType::I16 => 2,
            VarType::U32 | VarType::I32 | VarType::SlimPtr | VarType::Func(_, _) => 4,
            VarType::U64 | VarType::I64 | VarType::Ptr(_) => 8,
            VarType::Struct(n) => total_size(n),
            VarType::Array(t, s) => {
                let e = t.size();
                if e == 0 {
                    assert(type_size(**t) * *s == 0) by (nonlinear_arith)
                        requires
                            type_size(**t) == 0,
                    ;
                    0
                } else {
                    proof {
                        assert(*s <= u32::MAX) by (nonlinear_arith)
                            requires
                                e >= 1,
                                e * *s <= u32::MAX,
                        ;
                    }
                    let k = *s as u32;
                    assert(k == *s);
                    e * k
                }
            },
            VarType::Tuple(n) => total_size(n),
        }
    }
}

/// The total size of the types in `n`.
fn total_size(n: &Vec<VarType>) -> (r: u32)
    requires
        all_sizes_fit(n@),
        sum_sizes(n@) <= u32::MAX,
    ensures
        r == sum_sizes(n@),
    decreases n,
{
    let mut total: u32 = 0;
    let mut i: usize = 0;
    while i < n.len()
        invariant
            0 <= i <= n@.len(),
            all_sizes_fit(n@),
            sum_sizes(n@) <= u32::MAX,
            total == sum_sizes(n@.take(i as int)),
        decreases n@.len() - i,
    {
        proof {
            lemma_member_fits(n@, i as int);
            lemma_prefix_sum(n@, i as int + 1);
            let t = n@.take(i as int + 1);
            assert(t.drop_last() =~= n@.take(i as int));
            assert(t.last() == n@[i as int]);
            assert(decreases_to!(n => n@[i as int]));
        }
        let e = n[i].size();
        total = total + e;
        i = i + 1;
    }
    assert(n@.take(i as int) =~= n@);
    total
}

/// The mathematical form of a type: two types are the same type when their shapes are equal.
pub enum Shape {
    U8,
    U16,
    U32,
    U64,
    I8,
    I16,
    I32,
    I64,
    SlimPtr,
    Ptr(Box<Shape>),
    Struct(Seq<Shape>),
    Array(Box<Shape>, nat),
    Tuple(Seq<Shape>),
    Func(Seq<Shape>, Box<Shape>),
}

pub open spec fn shape(t: VarType) -> Shape
    decreases t,
{
    match t {
        VarType::U8 => Shape::U8,
        VarType::U16 => Shape::U16,
        VarType::U32 => Shape::U32,
        VarType::U64 => Shape::U64,
        VarType::I8 => Shape::I8,
        VarType::I16 => Shape::I16,
        VarType::I32 => Shape::I32,
        VarType::I64 => Shape::I64,
        VarType::SlimPtr => Shape::SlimPtr,
        VarType::Ptr(e) => Shape::Ptr(Box::new(shape(*e))),
        VarType::Struct(n) => Shape::Struct(shapes(n@)),
        VarType::Array(e, k) => Shape::Array(Box::new(shape(*e)), k as nat),
        VarType::Tuple(n) => Shape::Tuple(shapes(n@)),
        VarType::Func(a, r) => Shape::Func(shapes(a@), Box::new(shape(*r))),
    }
}

pub open spec fn shapes(s: Seq<VarType>) -> Seq<Shape>
    decreases s,
{
    if s.len() == 0 {
        Seq::empty()
    } else {
        shapes(s.drop_last()).push(shape(s.last()))
    }
}

proof fn lemma_shapes(s: Seq<VarType>)
    ensures
        shapes(s).len() == s.len(),
        forall|i: int| 0 <= i < s.len() ==> #[trigger] shapes(s)[i] == shape(s[i]),
    decreases s.len(),
{
    if s.len() > 0 {
        lemma_shapes(s.drop_last());
    }
}

/// An expression over typed values.
pub enum Expr {
    Const(VarType),
    Add(Box<Expr>, Box<Expr>),
    Sub(Box<Expr>, Box<Expr>),
    Mul(Box<Expr>, Box<Expr>),
    Div(Box<Expr>, Box<Expr>),
    TypeCast(VarType),
}

/// The shape of the type of `e`, or `None` where two operands of one operation differ in type.
pub open spec fn expr_shape(e: Expr) -> Option<Shape>
    decreases e,
{
    match e {
        Expr::Const(t) | Expr::TypeCast(t) => Some(shape(t)),
        Expr::Add(a, b) | Expr::Sub(a, b) | Expr::Mul(a, b) | Expr::Div(a, b) => {
            match (expr_shape(*a), expr_shape(*b)) {
                (Some(x), Some(y)) => if x == y { Some(x) } else { None },
                _ => None,
            }
        },
    }
}

impl VarType {
    /// A copy of this type.
    pub fn duplicate(&self) -> (r: VarType)
        ensures
            shape(r) == shape(*self),
        decreases self,
    {
        match self {
            VarType::U8 => VarType::U8,
            VarType::U16 => VarType::U16,
            VarType::U32 => VarType::U32,
            VarType::U64 => VarType::U64,
            VarType::I8 => VarType::I8,
            VarType::I16 => VarType::I16,
            VarType::I32 => VarType::I32,
            VarType::I64 => VarType::I64,
            VarType::SlimPtr => VarType::SlimPtr,
            VarType::Ptr(e) => VarType::Ptr(Box::new(e.duplicate())),
            VarType::Struct(n) => VarType::Struct(duplicate_all(n)),
            VarType::Array(e, k) => VarType::Array(Box::new(e.duplicate()), *k),
            VarType::Tuple(n) => VarType::Tuple(duplicate_all(n)),
            VarType::Func(a, r) => VarType::Func(duplicate_all(a), Box::new(r.duplicate())),
        }
    }

    /// Whether this type and `o` are the same type.
    pub fn same_type(&self, o: &VarType) -> (r: bool)
        ensures
            r == (shape(*self) == shape(*o)),
        decreases self,
    {
        match (self, o) {
            (VarType::U8, VarType::U8) => true,
            (VarType::U16, VarType::U16) => true,
            (VarType::U32, VarType::U32) => true,
            (VarType::U64, VarType::U64) => true,
            (VarType::I8, VarType::I8) => true,
            (VarType::I16, VarType::I16) => true,
            (VarType::I32, VarType::I32) => true,
            (VarType::I64, VarType::I64) => true,
            (VarType::SlimPtr, VarType::SlimPtr) => true,
            (VarType::Ptr(x), VarType::Ptr(y)) => x.same_type(y),
            (VarType::Struct(n), VarType::Struct(m)) => same_types(n, m),
            (VarType::Array(x, k), VarType::Array(y, j)) => *k == *j && x.same_type(y),
            (VarType::Tuple(n), VarType::Tuple(m)) => same_types(n, m),
            (VarType::Func(a, x), VarType::Func(b, y)) => same_types(a, b) && x.same_type(y),
            _ => false,
        }
    }
}

/// Copies of the types in `n`.
fn duplicate_all(n: &Vec<VarType>) -> (r: Vec<VarType>)
    ensures
        shapes(r@) == shapes(n@),
    decreases n,
{
    let mut out: Vec<VarType> = Vec::new();
    let mut i: usize = 0;
    while i < n.len()
        invariant
            0 <= i <= n@.len(),
            out@.len() == i,
            shapes(out@) == shapes(n@.take(i as int)),
        decreases n@.len() - i,
    {
        proof {
            assert(decreases_to!(n => n@[i as int]));
        }
        let t = n[i].duplicate();
        let ghost before = out@;
        out.push(t);
        proof {
            assert(out@.drop_last() =~= before);
            let p = n@.take(i as int + 1);
            assert(p.drop_last() =~= n@.take(i as int));
            assert(p.last() == n@[i as int]);
        }
        i = i + 1;
    }
    assert(n@.take(i as int) =~= n@);
    out
}

/// Whether `n` and `m` hold the same types, in the same order.
fn same_types(n: &Vec<VarType>, m: &Vec<VarType>) -> (r: bool)
    ensures
        r == (shapes(n@) == shapes(m@)),
    decreases n,
{
    proof {
        lemma_shapes(n@);
        lemma_shapes(m@);
    }
    if n.len() != m.len() {
        return false;
    }
    let mut i: usize = 0;
    while i < n.len()
        invariant
            0 <= i <= n@.len(),
            n@.len() == m@.len(),
            shapes(n@).len() == n@.len(),
            shapes(m@).len() == m@.len(),
            forall|k: int| 0 <= k < n@.len() ==> #[trigger] shapes(n@)[k] == shape(n@[k]),
            forall|k: int| 0 <= k < m@.len() ==> #[trigger] shapes(m@)[k] == shape(m@[k]),
            forall|k: int| 0 <= k < i ==> shape(#[trigger] n@[k]) == shape(m@[k]),
        decreases n@.len() - i,
    {
        proof {
            assert(decreases_to!(n => n@[i as int]));
        }
        if !n[i].same_type(&m[i]) {
            assert(shapes(n@)[i as int] != shapes(m@)[i as int]);
            return false;
        }
        i = i + 1;
    }
    assert(shapes(n@) =~= shapes(m@));
    true
}

impl Expr {
    /// The type of this expression: the type of a constant or cast, and for an operation the
    /// common type of its two operands, which must agree.
    pub fn get_type(&self) -> (r: Result<VarType, AssemblyError>)
        ensures
            match r {
                Ok(t) => expr_shape(*self) == Some(shape(t)),
                Err(e) => expr_shape(*self) is None && e == AssemblyError::TypeMismatch,
            },
        decreases self,
    {
        match self {
            Expr::Const(t) | Expr::TypeCast(t) => Ok(t.duplicate()),
            Expr::Add(a, b) | Expr::Sub(a, b) | Expr::Mul(a, b) | Expr::Div(a, b) => {
                let x = match a.get_type() {
                    Ok(x) => x,
                    Err(e) => return Err(e),
                };
                let y = match b.get_type() {
                    Ok(y) => y,
                    Err(e) => return Err(e),
                };
                if x.same_type(&y) {
                    Ok(x)
                } else {
                    Err(AssemblyError::TypeMismatch)
                }
            },
        }
    }
}

} // verus!
