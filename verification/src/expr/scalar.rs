//! The scalar expression tree and its typed form.

use vstd::prelude::*;
use crate::datatypes::ConcreteDataType;
use crate::datatypes::SpecValue;
use crate::datatypes::Value;
use crate::error::Error;
use crate::expr::func::BinaryFunc;
use crate::expr::func::UnaryFunc;
use crate::expr::func::UnmaterializableFunc;
use crate::expr::func::VariadicFunc;
use crate::repr::ColumnType;

verus! {

/// The mathematical content of a [`ScalarExpr`]: a tree whose variadic nodes
/// hold a sequence of children.
#[allow(inconsistent_fields)]
pub ghost enum SpecExpr {
    Column(nat),
    Literal(SpecValue, ConcreteDataType),
    CallUnmaterializable(UnmaterializableFunc),
    CallUnary { func: UnaryFunc, expr: Box<SpecExpr> },
    CallBinary { func: BinaryFunc, expr1: Box<SpecExpr>, expr2: Box<SpecExpr> },
    CallVariadic { func: VariadicFunc, exprs: Seq<SpecExpr> },
    If { cond: Box<SpecExpr>, then: Box<SpecExpr>, els: Box<SpecExpr> },
}

/// A scalar expression over the columns of one input row.
///
/// Each composite node owns its children: the expression is a tree.
#[derive(Debug, PartialEq, Eq)]
#[allow(inconsistent_fields)]
pub enum ScalarExpr {
    /// The value of the input column at this index.
    Column(usize),
    /// A constant, with its type.
    Literal(Value, ConcreteDataType),
    /// A call whose value depends on the execution context.
    CallUnmaterializable(UnmaterializableFunc),
    CallUnary { func: UnaryFunc, expr: Box<ScalarExpr> },
    CallBinary { func: BinaryFunc, expr1: Box<ScalarExpr>, expr2: Box<ScalarExpr> },
    CallVariadic { func: VariadicFunc, exprs: Vec<ScalarExpr> },
    /// `then` where `cond` holds, `els` otherwise.
    If { cond: Box<ScalarExpr>, then: Box<ScalarExpr>, els: Box<ScalarExpr> },
}

impl ScalarExpr {
    /// The tree that this expression stands for.
    pub open spec fn model(self) -> SpecExpr
        decreases self,
    {
        match self {
            ScalarExpr::Column(c) => SpecExpr::Column(c as nat),
            ScalarExpr::Literal(v, t) => SpecExpr::Literal(v@, t),
            ScalarExpr::CallUnmaterializable(f) => SpecExpr::CallUnmaterializable(f),
            ScalarExpr::CallUnary { func, expr } => SpecExpr::CallUnary {
                func,
                expr: Box::new((*expr).model()),
            },
            ScalarExpr::CallBinary { func, expr1, expr2 } => SpecExpr::CallBinary {
                func,
                expr1: Box::new((*expr1).model()),
                expr2: Box::new((*expr2).model()),
            },
            ScalarExpr::CallVariadic { func, exprs } => SpecExpr::CallVariadic {
                func,
                exprs: Seq::new(
                    exprs@.len(),
                    |i: int|
                        if 0 <= i < exprs@.len() {
                            exprs@[i].model()
                        } else {
                            SpecExpr::Column(0)
                        },
                ),
            },
            ScalarExpr::If { cond, then, els } => SpecExpr::If {
                cond: Box::new((*cond).model()),
                then: Box::new((*then).model()),
                els: Box::new((*els).model()),
            },
        }
    }

    /// The trees that a sequence of expressions stands for.
    pub open spec fn models(s: Seq<ScalarExpr>) -> Seq<SpecExpr> {
        Seq::new(s.len(), |i: int| s[i]@)
    }

    /// The children of a variadic node are the views of the children it
    /// holds.
    pub proof fn lemma_view_variadic(func: VariadicFunc, exprs: Vec<ScalarExpr>)
        ensures
            (ScalarExpr::CallVariadic { func, exprs })@ == (SpecExpr::CallVariadic {
                func,
                exprs: Self::models(exprs@),
            }),
    {
        let e = ScalarExpr::CallVariadic { func, exprs };
        assert(e@->CallVariadic_exprs =~= Self::models(exprs@));
    }
}

impl View for ScalarExpr {
    type V = SpecExpr;

    open spec fn view(&self) -> SpecExpr {
        self.model()
    }
}

impl SpecExpr {
    pub open spec fn is_literal(self) -> bool {
        self is Literal
    }
}

/// The arguments of a variadic call of `func` with every nested call of the
/// same function replaced, at any depth, by its own arguments in place.
pub open spec fn flat_args(func: VariadicFunc, exprs: Seq<SpecExpr>) -> Seq<SpecExpr>
    decreases exprs,
{
    if exprs.len() == 0 {
        seq![]
    } else {
        let rest = flat_args(func, exprs.subrange(0, exprs.len() - 1));
        match exprs[exprs.len() - 1] {
            SpecExpr::CallVariadic { func: inner_func, exprs: inner } => if inner_func == func {
                rest + flat_args(func, inner)
            } else {
                rest.push(exprs[exprs.len() - 1])
            },
            other => rest.push(other),
        }
    }
}

impl SpecExpr {
    /// Whether the node is a variadic call of `func`.
    pub open spec fn is_call_of(self, func: VariadicFunc) -> bool {
        self matches SpecExpr::CallVariadic { func: f, .. } && f == func
    }

    /// The expression with a variadic call at its root flattened: nested
    /// calls of the same function give their arguments to the root. Any
    /// other expression is unchanged.
    pub open spec fn flatten(self) -> SpecExpr {
        match self {
            SpecExpr::CallVariadic { func, exprs } => SpecExpr::CallVariadic {
                func,
                exprs: flat_args(func, exprs),
            },
            _ => self,
        }
    }

    /// Whether no argument of a variadic call at the root is itself a call
    /// of the same function.
    pub open spec fn is_flat(self) -> bool {
        match self {
            SpecExpr::CallVariadic { func, exprs } => forall|i: int|
                0 <= i < exprs.len() ==> !(#[trigger] exprs[i]).is_call_of(func),
            _ => true,
        }
    }
}

/// No flattened argument is a call of the same function.
pub proof fn lemma_flat_args_is_flat(func: VariadicFunc, exprs: Seq<SpecExpr>)
    ensures
        forall|i: int|
            0 <= i < flat_args(func, exprs).len() ==> !(#[trigger] flat_args(func, exprs)[i]).is_call_of(
                func,
            ),
    decreases exprs,
{
    if exprs.len() > 0 {
        let front = exprs.subrange(0, exprs.len() - 1);
        let rest = flat_args(func, front);
        let last = exprs[exprs.len() - 1];
        lemma_flat_args_is_flat(func, front);
        let out = flat_args(func, exprs);
        match last {
            SpecExpr::CallVariadic { func: inner_func, exprs: inner } => {
                if inner_func == func {
                    lemma_flat_args_is_flat(func, inner);
                    let tail = flat_args(func, inner);
                    assert(out == rest + tail);
                    assert forall|i: int| 0 <= i < out.len() implies !(#[trigger] out[i]).is_call_of(
                        func,
                    ) by {
                        if i < rest.len() {
                            assert(out[i] == rest[i]);
                        } else {
                            assert(out[i] == tail[i - rest.len()]);
                        }
                    }
                } else {
                    assert(out == rest.push(last));
                    assert forall|i: int| 0 <= i < out.len() implies !(#[trigger] out[i]).is_call_of(
                        func,
                    ) by {
                        if i < rest.len() {
                            assert(out[i] == rest[i]);
                        }
                    }
                }
            },
            _ => {
                assert(out == rest.push(last));
                assert forall|i: int| 0 <= i < out.len() implies !(#[trigger] out[i]).is_call_of(
                    func,
                ) by {
                    if i < rest.len() {
                        assert(out[i] == rest[i]);
                    }
                }
            },
        }
    }
}

/// Arguments of which none is a call of the same function are already flat.
pub proof fn lemma_flat_args_of_flat(func: VariadicFunc, exprs: Seq<SpecExpr>)
    requires
        forall|i: int| 0 <= i < exprs.len() ==> !(#[trigger] exprs[i]).is_call_of(func),
    ensures
        flat_args(func, exprs) == exprs,
    decreases exprs.len(),
{
    if exprs.len() > 0 {
        let front = exprs.subrange(0, exprs.len() - 1);
        assert forall|i: int| 0 <= i < front.len() implies !(#[trigger] front[i]).is_call_of(
            func,
        ) by {
            assert(front[i] == exprs[i]);
        }
        lemma_flat_args_of_flat(func, front);
        assert(!exprs[exprs.len() - 1].is_call_of(func));
        assert(front.push(exprs[exprs.len() - 1]) =~= exprs);
    } else {
        assert(exprs =~= seq![]);
    }
}

/// What flattening gives is flat, and flattening it again changes nothing.
pub proof fn lemma_flatten_is_flat(e: SpecExpr)
    ensures
        e.flatten().is_flat(),
        e.flatten().flatten() == e.flatten(),
{
    match e {
        SpecExpr::CallVariadic { func, exprs } => {
            lemma_flat_args_is_flat(func, exprs);
            lemma_flat_args_of_flat(func, flat_args(func, exprs));
        },
        _ => {},
    }
}

impl SpecExpr {
    /// Whether every column that the expression refers to has an index
    /// below `n`.
    pub open spec fn columns_below(self, n: nat) -> bool
        decreases self,
    {
        match self {
            SpecExpr::Column(c) => c < n,
            SpecExpr::Literal(_, _) => true,
            SpecExpr::CallUnmaterializable(_) => true,
            SpecExpr::CallUnary { expr, .. } => expr.columns_below(n),
            SpecExpr::CallBinary { expr1, expr2, .. } => expr1.columns_below(n)
                && expr2.columns_below(n),
            SpecExpr::CallVariadic { exprs, .. } => forall|i: int|
                0 <= i < exprs.len() ==> (#[trigger] exprs[i]).columns_below(n),
            SpecExpr::If { cond, then, els } => cond.columns_below(n) && then.columns_below(n)
                && els.columns_below(n),
        }
    }

    /// The expression with every column index `c` replaced by
    /// `permutation[c]`.
    pub open spec fn permute(self, permutation: Seq<nat>) -> SpecExpr
        decreases self,
    {
        match self {
            SpecExpr::Column(c) => SpecExpr::Column(permutation[c as int]),
            SpecExpr::Literal(_, _) => self,
            SpecExpr::CallUnmaterializable(_) => self,
            SpecExpr::CallUnary { func, expr } => SpecExpr::CallUnary {
                func,
                expr: Box::new(expr.permute(permutation)),
            },
            SpecExpr::CallBinary { func, expr1, expr2 } => SpecExpr::CallBinary {
                func,
                expr1: Box::new(expr1.permute(permutation)),
                expr2: Box::new(expr2.permute(permutation)),
            },
            SpecExpr::CallVariadic { func, exprs } => SpecExpr::CallVariadic {
                func,
                exprs: Seq::new(
                    exprs.len(),
                    |i: int|
                        if 0 <= i < exprs.len() {
                            exprs[i].permute(permutation)
                        } else {
                            SpecExpr::Column(0)
                        },
                ),
            },
            SpecExpr::If { cond, then, els } => SpecExpr::If {
                cond: Box::new(cond.permute(permutation)),
                then: Box::new(then.permute(permutation)),
                els: Box::new(els.permute(permutation)),
            },
        }
    }

    /// One more than the greatest column index that the expression refers
    /// to, and 0 where it refers to none: the least `n` with
    /// `columns_below(n)`.
    pub open spec fn support(self) -> nat
        decreases self,
    {
        match self {
            SpecExpr::Column(c) => c + 1,
            SpecExpr::Literal(_, _) => 0,
            SpecExpr::CallUnmaterializable(_) => 0,
            SpecExpr::CallUnary { expr, .. } => expr.support(),
            SpecExpr::CallBinary { expr1, expr2, .. } => max_nat(expr1.support(), expr2.support()),
            SpecExpr::CallVariadic { exprs, .. } => support_of(exprs, exprs.len()),
            SpecExpr::If { cond, then, els } => max_nat(
                cond.support(),
                max_nat(then.support(), els.support()),
            ),
        }
    }
}

/// The greater of two numbers.
pub open spec fn max_nat(a: nat, b: nat) -> nat {
    if a >= b {
        a
    } else {
        b
    }
}

/// The greatest support among the first `n` of `exprs`.
pub open spec fn support_of(exprs: Seq<SpecExpr>, n: nat) -> nat
    decreases exprs, n,
{
    if n == 0 || n > exprs.len() {
        0
    } else {
        max_nat(support_of(exprs, (n - 1) as nat), exprs[n - 1].support())
    }
}

/// The support of an expression bounds its columns, and is the least bound.
pub proof fn lemma_support(e: SpecExpr, n: nat)
    ensures
        e.columns_below(n) <==> e.support() <= n,
    decreases e,
{
    match e {
        SpecExpr::CallUnary { expr, .. } => {
            lemma_support(*expr, n);
        },
        SpecExpr::CallBinary { expr1, expr2, .. } => {
            lemma_support(*expr1, n);
            lemma_support(*expr2, n);
        },
        SpecExpr::CallVariadic { exprs, .. } => {
            lemma_support_of(exprs, exprs.len(), n);
        },
        SpecExpr::If { cond, then, els } => {
            lemma_support(*cond, n);
            lemma_support(*then, n);
            lemma_support(*els, n);
        },
        _ => {},
    }
}

/// The support of a prefix bounds the columns of each of its members, and
/// is the least bound.
pub proof fn lemma_support_of(exprs: Seq<SpecExpr>, k: nat, n: nat)
    requires
        k <= exprs.len(),
    ensures
        (forall|i: int| 0 <= i < k ==> (#[trigger] exprs[i]).columns_below(n)) <==> support_of(
            exprs,
            k,
        ) <= n,
    decreases exprs, k,
{
    if k > 0 {
        lemma_support_of(exprs, (k - 1) as nat, n);
        lemma_support(exprs[k - 1], n);
        if support_of(exprs, k) <= n {
            assert forall|i: int| 0 <= i < k implies (#[trigger] exprs[i]).columns_below(n) by {
                if i < k - 1 {
                } else {
                    assert(exprs[i] == exprs[k - 1]);
                }
            }
        } else {
            if support_of(exprs, (k - 1) as nat) <= n {
                assert(!exprs[k - 1].columns_below(n));
            }
        }
    }
}

/// Columns that lie below `n` lie below every greater bound.
pub proof fn lemma_columns_below_mono(e: SpecExpr, n: nat, m: nat)
    requires
        e.columns_below(n),
        n <= m,
    ensures
        e.columns_below(m),
{
    lemma_support(e, n);
    lemma_support(e, m);
}

/// A permuted expression refers only to columns that the permutation
/// yields.
pub proof fn lemma_permute_below(e: SpecExpr, permutation: Seq<nat>, n: nat)
    requires
        e.columns_below(permutation.len()),
        forall|i: int| 0 <= i < permutation.len() ==> #[trigger] permutation[i] < n,
    ensures
        e.permute(permutation).columns_below(n),
    decreases e,
{
    match e {
        SpecExpr::CallUnary { expr, .. } => {
            lemma_permute_below(*expr, permutation, n);
        },
        SpecExpr::CallBinary { expr1, expr2, .. } => {
            lemma_permute_below(*expr1, permutation, n);
            lemma_permute_below(*expr2, permutation, n);
        },
        SpecExpr::CallVariadic { exprs, .. } => {
            let out = e.permute(permutation)->CallVariadic_exprs;
            assert forall|i: int| 0 <= i < out.len() implies (#[trigger] out[i]).columns_below(
                n,
            ) by {
                lemma_permute_below(exprs[i], permutation, n);
            }
        },
        SpecExpr::If { cond, then, els } => {
            lemma_permute_below(*cond, permutation, n);
            lemma_permute_below(*then, permutation, n);
            lemma_permute_below(*els, permutation, n);
        },
        _ => {},
    }
}

impl Clone for ScalarExpr {
    /// A copy that stands for the same tree.
    #[verifier::loop_isolation(false)]
    fn clone(&self) -> (r: Self)
        ensures
            r@ == self@,
        decreases self,
    {
        match self {
            ScalarExpr::Column(c) => ScalarExpr::Column(*c),
            ScalarExpr::Literal(v, t) => ScalarExpr::Literal(v.clone(), *t),
            ScalarExpr::CallUnmaterializable(f) => ScalarExpr::CallUnmaterializable(*f),
            ScalarExpr::CallUnary { func, expr } => ScalarExpr::CallUnary {
                func: *func,
                expr: Box::new((**expr).clone()),
            },
            ScalarExpr::CallBinary { func, expr1, expr2 } => ScalarExpr::CallBinary {
                func: *func,
                expr1: Box::new((**expr1).clone()),
                expr2: Box::new((**expr2).clone()),
            },
            ScalarExpr::CallVariadic { func, exprs } => {
                let mut out: Vec<ScalarExpr> = Vec::new();
                let mut i: usize = 0;
                while i < exprs.len()
                    invariant
                        i <= exprs.len(),
                        out@.len() == i,
                        forall|j: int| 0 <= j < i ==> (#[trigger] out@[j])@ == exprs@[j]@,
                    decreases exprs.len() - i,
                {
                    assert(decreases_to!(*exprs => exprs@[i as int]));
                    out.push(exprs[i].clone());
                    i = i + 1;
                }
                proof {
                    Self::lemma_view_variadic(*func, out);
                    Self::lemma_view_variadic(*func, *exprs);
                    assert(Self::models(out@) =~= Self::models(exprs@));
                }
                ScalarExpr::CallVariadic { func: *func, exprs: out }
            },
            ScalarExpr::If { cond, then, els } => ScalarExpr::If {
                cond: Box::new((**cond).clone()),
                then: Box::new((**then).clone()),
                els: Box::new((**els).clone()),
            },
        }
    }
}

impl ScalarExpr {
    /// The unary call of `func` on this expression.
    pub fn call_unary(self, func: UnaryFunc) -> (r: ScalarExpr)
        ensures
            r@ == (SpecExpr::CallUnary { func, expr: Box::new(self@) }),
    {
        ScalarExpr::CallUnary { func, expr: Box::new(self) }
    }

    /// The binary call of `func` on this expression and `other`.
    pub fn call_binary(self, other: ScalarExpr, func: BinaryFunc) -> (r: ScalarExpr)
        ensures
            r@ == (SpecExpr::CallBinary {
                func,
                expr1: Box::new(self@),
                expr2: Box::new(other@),
            }),
    {
        ScalarExpr::CallBinary { func, expr1: Box::new(self), expr2: Box::new(other) }
    }

    /// The null literal of the untyped type.
    pub fn literal_null() -> (r: ScalarExpr)
        ensures
            r@ == SpecExpr::Literal(SpecValue::Null, ConcreteDataType::Null),
    {
        ScalarExpr::Literal(Value::Null, ConcreteDataType::Null)
    }

    /// Whether the expression is a literal node.
    pub fn is_literal(&self) -> (r: bool)
        ensures
            r == self@.is_literal(),
    {
        match self {
            ScalarExpr::Literal(_, _) => true,
            _ => false,
        }
    }

    /// The value of a literal node, and `None` for any other node.
    pub fn as_literal(&self) -> (r: Option<&Value>)
        ensures
            match r {
                Some(v) => self@ is Literal && self@->Literal_0 == v@,
                None => !(self@ is Literal),
            },
    {
        match self {
            ScalarExpr::Literal(v, _) => Some(v),
            _ => None,
        }
    }
}

/// Appends to `out` the arguments `exprs` of a call of `func`, flattened.
#[verifier::loop_isolation(false)]
fn flatten_into(func: VariadicFunc, exprs: Vec<ScalarExpr>, out: &mut Vec<ScalarExpr>)
    ensures
        ScalarExpr::models(final(out)@) == ScalarExpr::models(old(out)@) + flat_args(
            func,
            ScalarExpr::models(exprs@),
        ),
    decreases exprs,
{
    let ghost all = ScalarExpr::models(exprs@);
    let ghost before = ScalarExpr::models(out@);
    let mut rest = exprs;
    let mut i: usize = 0;
    assert(all.subrange(0, 0) =~= seq![]);
    assert(before + flat_args(func, all.subrange(0, 0)) =~= before);
    while i < rest.len()
        invariant
            i <= rest@.len(),
            rest@.len() == exprs@.len(),
            forall|j: int| i <= j < rest@.len() ==> rest@[j] == exprs@[j],
            ScalarExpr::models(out@) == before + flat_args(func, all.subrange(0, i as int)),
        decreases rest@.len() - i,
    {
        let ghost prefix = all.subrange(0, i as int);
        let ghost next = all.subrange(0, i + 1);
        assert(next.subrange(0, next.len() - 1) =~= prefix);
        assert(next[next.len() - 1] == exprs@[i as int]@);
        assert(decreases_to!(exprs => exprs@[i as int]));
        let ghost so_far = ScalarExpr::models(out@);
        let mut slot = ScalarExpr::Column(0);
        core::mem::swap(&mut rest[i], &mut slot);
        match slot {
            ScalarExpr::CallVariadic { func: inner_func, exprs: inner } => {
                proof {
                    ScalarExpr::lemma_view_variadic(inner_func, inner);
                }
                if inner_func == func {
                    flatten_into(func, inner, out);
                    assert(ScalarExpr::models(out@) =~= before + flat_args(func, next));
                } else {
                    out.push(ScalarExpr::CallVariadic { func: inner_func, exprs: inner });
                    assert(ScalarExpr::models(out@) =~= so_far.push(exprs@[i as int]@));
                    assert(ScalarExpr::models(out@) =~= before + flat_args(func, next));
                }
            },
            other => {
                out.push(other);
                assert(ScalarExpr::models(out@) =~= so_far.push(exprs@[i as int]@));
                assert(ScalarExpr::models(out@) =~= before + flat_args(func, next));
            },
        }
        i = i + 1;
    }
    assert(all.subrange(0, i as int) =~= all);
}

impl ScalarExpr {
    /// The expression with a variadic call at its root flattened.
    pub fn flattened(self) -> (r: ScalarExpr)
        ensures
            r@ == self@.flatten(),
            r@.is_flat(),
    {
        proof {
            lemma_flatten_is_flat(self@);
        }
        match self {
            ScalarExpr::CallVariadic { func, exprs } => {
                let mut out: Vec<ScalarExpr> = Vec::new();
                proof {
                    Self::lemma_view_variadic(func, exprs);
                    assert(Self::models(out@) =~= seq![]);
                }
                flatten_into(func, exprs, &mut out);
                proof {
                    Self::lemma_view_variadic(func, out);
                    assert(Self::models(out@) =~= flat_args(func, Self::models(exprs@)));
                }
                ScalarExpr::CallVariadic { func, exprs: out }
            },
            other => other,
        }
    }

    /// Optimizes the expression in place: a variadic call at the root takes
    /// over the arguments of nested calls of the same function, so that a
    /// chain of binary conjunctions becomes one conjunction of all its
    /// members.
    pub fn optimize(&mut self)
        ensures
            final(self)@ == old(self)@.flatten(),
            final(self)@.is_flat(),
    {
        let mut taken = ScalarExpr::Column(0);
        core::mem::swap(self, &mut taken);
        let mut flat = taken.flattened();
        core::mem::swap(self, &mut flat);
    }
}

/// A sequence of column indices as mathematical numbers.
pub open spec fn indices(v: Seq<usize>) -> Seq<nat> {
    Seq::new(v.len(), |i: int| v[i] as nat)
}

impl ScalarExpr {
    /// Whether every column that the expression refers to has an index
    /// below `n`.
    #[verifier::loop_isolation(false)]
    pub fn columns_below(&self, n: usize) -> (r: bool)
        ensures
            r == self@.columns_below(n as nat),
        decreases self,
    {
        match self {
            ScalarExpr::Column(c) => *c < n,
            ScalarExpr::Literal(_, _) => true,
            ScalarExpr::CallUnmaterializable(_) => true,
            ScalarExpr::CallUnary { expr, .. } => expr.columns_below(n),
            ScalarExpr::CallBinary { expr1, expr2, .. } => expr1.columns_below(n)
                && expr2.columns_below(n),
            ScalarExpr::CallVariadic { func, exprs } => {
                proof {
                    Self::lemma_view_variadic(*func, *exprs);
                }
                let mut i: usize = 0;
                while i < exprs.len()
                    invariant
                        i <= exprs@.len(),
                        forall|j: int| 0 <= j < i ==> (#[trigger] exprs@[j])@.columns_below(n as nat),
                    decreases exprs@.len() - i,
                {
                    assert(decreases_to!(*exprs => exprs@[i as int]));
                    if !exprs[i].columns_below(n) {
                        assert(Self::models(exprs@)[i as int] == exprs@[i as int]@);
                        assert(!Self::models(exprs@)[i as int].columns_below(n as nat));
                        let ghost me = SpecExpr::CallVariadic {
                            func: *func,
                            exprs: Self::models(exprs@),
                        };
                        assert(self@ == me);
                        proof {
                            if me.columns_below(n as nat) {
                                assert(me->CallVariadic_exprs[i as int].columns_below(n as nat));
                            }
                        }
                        return false;
                    }
                    i = i + 1;
                }
                assert forall|j: int| 0 <= j < Self::models(exprs@).len() implies (
                #[trigger] Self::models(exprs@)[j]).columns_below(n as nat) by {
                    assert(exprs@[j]@.columns_below(n as nat));
                }
                true
            },
            ScalarExpr::If { cond, then, els } => cond.columns_below(n) && then.columns_below(n)
                && els.columns_below(n),
        }
    }

    /// One more than the greatest column index that the expression refers
    /// to, and 0 where it refers to none.
    #[verifier::loop_isolation(false)]
    pub fn support(&self) -> (r: usize)
        requires
            self@.columns_below(usize::MAX as nat),
        ensures
            r == self@.support(),
        decreases self,
    {
        proof {
            lemma_support(self@, usize::MAX as nat);
        }
        match self {
            ScalarExpr::Column(c) => *c + 1,
            ScalarExpr::Literal(_, _) => 0,
            ScalarExpr::CallUnmaterializable(_) => 0,
            ScalarExpr::CallUnary { expr, .. } => expr.support(),
            ScalarExpr::CallBinary { expr1, expr2, .. } => {
                let a = expr1.support();
                let b = expr2.support();
                if a >= b {
                    a
                } else {
                    b
                }
            },
            ScalarExpr::CallVariadic { func, exprs } => {
                proof {
                    Self::lemma_view_variadic(*func, *exprs);
                }
                let ghost all = Self::models(exprs@);
                let mut best: usize = 0;
                let mut i: usize = 0;
                while i < exprs.len()
                    invariant
                        i <= exprs@.len(),
                        best == support_of(all, i as nat),
                    decreases exprs@.len() - i,
                {
                    assert(decreases_to!(*exprs => exprs@[i as int]));
                    assert(all[i as int] == exprs@[i as int]@);
                    assert(all[i as int].columns_below(usize::MAX as nat));
                    let s = exprs[i].support();
                    if s > best {
                        best = s;
                    }
                    i = i + 1;
                }
                best
            },
            ScalarExpr::If { cond, then, els } => {
                let a = cond.support();
                let b = then.support();
                let c = els.support();
                let bc = if b >= c {
                    b
                } else {
                    c
                };
                if a >= bc {
                    a
                } else {
                    bc
                }
            },
        }
    }

    /// The expression with every column index `c` replaced by
    /// `permutation[c]`, or `InvalidPlan` where the expression refers to a
    /// column that the permutation does not cover.
    #[verifier::loop_isolation(false)]
    pub fn permuted(self, permutation: &Vec<usize>) -> (r: Result<ScalarExpr, Error>)
        ensures
            match r {
                Ok(p) => self@.columns_below(permutation@.len()) && p@ == self@.permute(
                    indices(permutation@),
                ),
                Err(e) => e == Error::InvalidPlan && !self@.columns_below(permutation@.len()),
            },
        decreases self,
    {
        let ghost perm = indices(permutation@);
        match self {
            ScalarExpr::Column(c) => {
                if c < permutation.len() {
                    assert(perm[c as int] == permutation@[c as int] as nat);
                    Ok(ScalarExpr::Column(permutation[c]))
                } else {
                    Err(Error::InvalidPlan)
                }
            },
            ScalarExpr::Literal(v, t) => Ok(ScalarExpr::Literal(v, t)),
            ScalarExpr::CallUnmaterializable(f) => Ok(ScalarExpr::CallUnmaterializable(f)),
            ScalarExpr::CallUnary { func, expr } => {
                match (*expr).permuted(permutation) {
                    Ok(e) => Ok(ScalarExpr::CallUnary { func, expr: Box::new(e) }),
                    Err(err) => Err(err),
                }
            },
            ScalarExpr::CallBinary { func, expr1, expr2 } => {
                let e1 = match (*expr1).permuted(permutation) {
                    Ok(e) => e,
                    Err(err) => { return Err(err); },
                };
                let e2 = match (*expr2).permuted(permutation) {
                    Ok(e) => e,
                    Err(err) => { return Err(err); },
                };
                Ok(ScalarExpr::CallBinary { func, expr1: Box::new(e1), expr2: Box::new(e2) })
            },
            ScalarExpr::CallVariadic { func, exprs } => {
                proof {
                    Self::lemma_view_variadic(func, exprs);
                }
                let ghost all = Self::models(exprs@);
                let mut rest = exprs;
                let mut out: Vec<ScalarExpr> = Vec::new();
                let mut i: usize = 0;
                while i < rest.len()
                    invariant
                        i <= rest@.len(),
                        rest@.len() == exprs@.len(),
                        forall|j: int| i <= j < rest@.len() ==> rest@[j] == exprs@[j],
                        out@.len() == i,
                        forall|j: int|
                            0 <= j < i ==> all[j].columns_below(permutation@.len()) && (
                            #[trigger] out@[j])@ == all[j].permute(perm),
                    decreases rest@.len() - i,
                {
                    assert(decreases_to!(exprs => exprs@[i as int]));
                    assert(all[i as int] == exprs@[i as int]@);
                    let mut slot = ScalarExpr::Column(0);
                    core::mem::swap(&mut rest[i], &mut slot);
                    match slot.permuted(permutation) {
                        Ok(e) => {
                            out.push(e);
                        },
                        Err(err) => {
                            return Err(err);
                        },
                    }
                    i = i + 1;
                }
                proof {
                    Self::lemma_view_variadic(func, out);
                    assert(self@ == (SpecExpr::CallVariadic { func, exprs: all }));
                    assert forall|j: int| 0 <= j < all.len() implies (#[trigger] all[j]).columns_below(
                        permutation@.len(),
                    ) by {
                        assert(out@[j]@ == all[j].permute(perm));
                    }
                    assert(Self::models(out@) =~= self@.permute(perm)->CallVariadic_exprs);
                }
                Ok(ScalarExpr::CallVariadic { func, exprs: out })
            },
            ScalarExpr::If { cond, then, els } => {
                let c = match (*cond).permuted(permutation) {
                    Ok(e) => e,
                    Err(err) => { return Err(err); },
                };
                let t = match (*then).permuted(permutation) {
                    Ok(e) => e,
                    Err(err) => { return Err(err); },
                };
                let e = match (*els).permuted(permutation) {
                    Ok(e) => e,
                    Err(err) => { return Err(err); },
                };
                Ok(ScalarExpr::If { cond: Box::new(c), then: Box::new(t), els: Box::new(e) })
            },
        }
    }
}

/// The mathematical content of a [`TypedExpr`].
pub ghost struct SpecTypedExpr {
    pub expr: SpecExpr,
    pub typ: ColumnType,
}

/// An expression together with its statically inferred result type.
#[derive(Debug, PartialEq, Eq)]
pub struct TypedExpr {
    pub expr: ScalarExpr,
    pub typ: ColumnType,
}

impl View for TypedExpr {
    type V = SpecTypedExpr;

    open spec fn view(&self) -> SpecTypedExpr {
        SpecTypedExpr { expr: self.expr@, typ: self.typ }
    }
}

/// The views of a sequence of typed expressions.
pub open spec fn typed_models(s: Seq<TypedExpr>) -> Seq<SpecTypedExpr> {
    Seq::new(s.len(), |i: int| s[i]@)
}

/// The expressions of a sequence of typed expressions.
pub open spec fn exprs_of(args: Seq<SpecTypedExpr>) -> Seq<SpecExpr> {
    Seq::new(args.len(), |i: int| args[i].expr)
}

impl Clone for TypedExpr {
    /// A copy that stands for the same typed tree.
    fn clone(&self) -> (r: Self)
        ensures
            r@ == self@,
    {
        TypedExpr { expr: self.expr.clone(), typ: self.typ }
    }
}

impl TypedExpr {
    /// The expression `expr` with the type `typ`.
    pub fn new(expr: ScalarExpr, typ: ColumnType) -> (r: TypedExpr)
        ensures
            r@ == (SpecTypedExpr { expr: expr@, typ }),
    {
        TypedExpr { expr, typ }
    }
}

} // verus!
