//! Plans: a source, a constant row set, or a map-filter-project operator on
//! top of another plan.

use vstd::prelude::*;
use crate::datatypes::SpecValue;
use crate::datatypes::Value;
use crate::error::view_result;
use crate::error::Error;
use crate::expr::linear::MapFilterProject;
use crate::expr::linear::SpecMfp;
use crate::expr::scalar::ScalarExpr;
use crate::expr::scalar::SpecTypedExpr;
use crate::expr::scalar::TypedExpr;
use crate::repr::ColumnType;
use crate::repr::Diff;
use crate::repr::RelationType;
use crate::repr::Row;
use crate::repr::Timestamp;
use crate::expr::scalar::exprs_of;
use crate::expr::scalar::typed_models;

verus! {

/// The name of a source that is known to the whole system.
#[derive(Clone, Copy, Debug, PartialEq, Eq, Structural, Hash)]
pub enum GlobalId {
    System(u64),
    User(u64),
    Transient(u64),
    Explain,
}

/// The name of a source.
#[derive(Clone, Copy, Debug, PartialEq, Eq, Structural, Hash)]
pub enum Id {
    Local(u64),
    Global(GlobalId),
}

/// The least timestamp: the time of a constant row.
pub const TIMESTAMP_MIN: Timestamp = -0x8000_0000_0000_0000;

/// The mathematical content of a [`Plan`].
pub ghost enum SpecPlan {
    Constant { rows: Seq<(Seq<SpecValue>, int, int)> },
    Get { id: Id },
    Mfp { input: Box<SpecPlan>, mfp: SpecMfp },
}

/// A plan.
#[derive(Debug, PartialEq, Eq)]
pub enum Plan {
    /// A fixed set of rows, each with its timestamp and its multiplicity.
    Constant { rows: Vec<(Row, Timestamp, Diff)> },
    /// The rows of a named source.
    Get { id: Id },
    /// The rows of `input`, mapped, filtered and projected.
    Mfp { input: Box<Plan>, mfp: MapFilterProject },
}

/// The values of a row.
pub open spec fn row_model(row: Seq<Value>) -> Seq<SpecValue> {
    Seq::new(row.len(), |i: int| row[i]@)
}

impl Plan {
    /// The plan that this value stands for.
    pub open spec fn model(self) -> SpecPlan
        decreases self,
    {
        match self {
            Plan::Constant { rows } => SpecPlan::Constant {
                rows: Seq::new(
                    rows@.len(),
                    |i: int| (row_model(rows@[i].0@), rows@[i].1 as int, rows@[i].2 as int),
                ),
            },
            Plan::Get { id } => SpecPlan::Get { id },
            Plan::Mfp { input, mfp } => SpecPlan::Mfp { input: Box::new((*input).model()), mfp: mfp@ },
        }
    }
}

impl View for Plan {
    type V = SpecPlan;

    open spec fn view(&self) -> SpecPlan {
        self.model()
    }
}

/// The mathematical content of a [`TypedPlan`].
pub ghost struct SpecTypedPlan {
    pub typ: Seq<ColumnType>,
    pub plan: SpecPlan,
}

/// A plan together with the type of the relation it produces.
#[derive(Debug, PartialEq, Eq)]
pub struct TypedPlan {
    pub typ: RelationType,
    pub plan: Plan,
}

impl View for TypedPlan {
    type V = SpecTypedPlan;

    open spec fn view(&self) -> SpecTypedPlan {
        SpecTypedPlan { typ: self.typ@, plan: self.plan@ }
    }
}

/// The types of a sequence of typed expressions.
pub open spec fn types_of(exprs: Seq<SpecTypedExpr>) -> Seq<ColumnType> {
    Seq::new(exprs.len(), |i: int| exprs[i].typ)
}

/// The column indices from `from` up to, and without, `from + count`.
pub open spec fn column_range(from: nat, count: nat) -> Seq<nat> {
    Seq::new(count, |i: int| (from + i) as nat)
}

/// The values of a sequence of literal expressions.
pub open spec fn literal_values(exprs: Seq<SpecTypedExpr>) -> Seq<SpecValue> {
    Seq::new(exprs.len(), |i: int| exprs[i].expr->Literal_0)
}

/// Whether every expression is a literal.
pub open spec fn all_literals(exprs: Seq<SpecTypedExpr>) -> bool {
    forall|i: int| 0 <= i < exprs.len() ==> (#[trigger] exprs[i]).expr is Literal
}

impl SpecTypedPlan {
    /// The plan that computes `exprs` over the rows of this plan and hands
    /// on the computed columns alone. On top of a map-filter-project
    /// operator the two operators are composed into one.
    pub open spec fn projection(self, exprs: Seq<SpecTypedExpr>) -> Result<SpecTypedPlan, Error> {
        let arity = self.typ.len();
        match SpecMfp::new(arity).map(exprs_of(exprs)) {
            Err(e) => Err(e),
            Ok(mapped) => match mapped.project(column_range(arity, exprs.len())) {
                Err(e) => Err(e),
                Ok(mfp) => match self.plan {
                    SpecPlan::Mfp { input, mfp: old } => match old.compose(mfp) {
                        Err(e) => Err(e),
                        Ok(composed) => Ok(
                            SpecTypedPlan {
                                typ: types_of(exprs),
                                plan: SpecPlan::Mfp { input, mfp: composed },
                            },
                        ),
                    },
                    other => Ok(
                        SpecTypedPlan {
                            typ: types_of(exprs),
                            plan: SpecPlan::Mfp { input: Box::new(other), mfp },
                        },
                    ),
                },
            },
        }
    }

    /// The plan that keeps the rows of this plan that satisfy `predicate`.
    pub open spec fn filter(self, predicate: SpecTypedExpr) -> Result<SpecTypedPlan, Error> {
        match self.plan {
            SpecPlan::Mfp { input, mfp: old } => match old.filter(seq![predicate]) {
                Err(e) => Err(e),
                Ok(mfp) => Ok(SpecTypedPlan { typ: self.typ, plan: SpecPlan::Mfp { input, mfp } }),
            },
            other => match SpecMfp::new(self.typ.len()).filter(seq![predicate]) {
                Err(e) => Err(e),
                Ok(mfp) => Ok(
                    SpecTypedPlan {
                        typ: self.typ,
                        plan: SpecPlan::Mfp { input: Box::new(other), mfp },
                    },
                ),
            },
        }
    }

    /// The plan for the selected expressions `exprs` over this plan: where
    /// every one of them is a literal, the constant plan of the one row of
    /// their values, at the least timestamp and with multiplicity 1; else
    /// the projection.
    pub open spec fn select(self, exprs: Seq<SpecTypedExpr>) -> Result<SpecTypedPlan, Error> {
        if all_literals(exprs) {
            Ok(
                SpecTypedPlan {
                    typ: types_of(exprs),
                    plan: SpecPlan::Constant {
                        rows: seq![(literal_values(exprs), TIMESTAMP_MIN as int, 1int)],
                    },
                },
            )
        } else {
            self.projection(exprs)
        }
    }
}

/// Splits typed expressions into their expressions and their types.
fn split_typed(exprs: Vec<TypedExpr>) -> (r: (Vec<ScalarExpr>, Vec<ColumnType>))
    ensures
        ScalarExpr::models(r.0@) == exprs_of(typed_models(exprs@)),
        r.1@ == types_of(typed_models(exprs@)),
{
    let ghost all = typed_models(exprs@);
    let mut rest = exprs;
    let mut out: Vec<ScalarExpr> = Vec::new();
    let mut types: Vec<ColumnType> = Vec::new();
    let mut i: usize = 0;
    while i < rest.len()
        invariant
            i <= rest@.len(),
            rest@.len() == exprs@.len(),
            all == typed_models(exprs@),
            forall|j: int| i <= j < rest@.len() ==> rest@[j] == exprs@[j],
            out@.len() == i,
            types@.len() == i,
            forall|j: int| 0 <= j < i ==> (#[trigger] out@[j])@ == all[j].expr,
            forall|j: int| 0 <= j < i ==> #[trigger] types@[j] == all[j].typ,
        decreases rest@.len() - i,
    {
        let mut slot = TypedExpr::new(
            ScalarExpr::Column(0),
            ColumnType::new_nullable(crate::datatypes::ConcreteDataType::Null),
        );
        core::mem::swap(&mut rest[i], &mut slot);
        assert(slot@ == all[i as int]);
        types.push(slot.typ);
        out.push(slot.expr);
        i = i + 1;
    }
    assert(ScalarExpr::models(out@) =~= exprs_of(all));
    assert(types@ =~= types_of(all));
    (out, types)
}

impl TypedPlan {
    /// Computes `exprs` over the rows of this plan and hands on the
    /// computed columns alone.
    ///
    /// Fails with `InvalidPlan` where an expression refers to a column that
    /// this plan does not produce.
    pub fn projection(self, exprs: Vec<TypedExpr>) -> (r: Result<TypedPlan, Error>)
        ensures
            view_result(r) == self@.projection(typed_models(exprs@)),
    {
        let input_arity = self.typ.arity();
        let output_arity = exprs.len();
        let (exprs, expr_typs) = split_typed(exprs);
        let mapped = match MapFilterProject::new(input_arity).map(exprs) {
            Ok(m) => m,
            Err(e) => { return Err(e); },
        };
        let width = mapped.output_arity();
        proof {
            crate::expr::linear::lemma_map_shape(
                SpecMfp::new(input_arity as nat),
                ScalarExpr::models(exprs@),
            );
            assert(width == input_arity + output_arity);
        }
        let mut columns: Vec<usize> = Vec::new();
        let mut i: usize = 0;
        while i < output_arity
            invariant
                i <= output_arity,
                columns@.len() == i,
                forall|j: int| 0 <= j < i ==> columns@[j] == input_arity + j,
                input_arity + output_arity <= usize::MAX,
            decreases output_arity - i,
        {
            columns.push(input_arity + i);
            i = i + 1;
        }
        assert(crate::expr::scalar::indices(columns@) =~= column_range(
            input_arity as nat,
            output_arity as nat,
        ));
        let mfp = match mapped.project(columns) {
            Ok(m) => m,
            Err(e) => { return Err(e); },
        };
        let typ = RelationType::new(expr_typs);
        match self.plan {
            Plan::Mfp { input, mfp: old_mfp } => {
                match MapFilterProject::compose(old_mfp, mfp) {
                    Ok(composed) => Ok(TypedPlan { typ, plan: Plan::Mfp { input, mfp: composed } }),
                    Err(e) => Err(e),
                }
            },
            other => Ok(TypedPlan { typ, plan: Plan::Mfp { input: Box::new(other), mfp } }),
        }
    }

    /// Keeps the rows of this plan that satisfy `predicate`.
    ///
    /// Fails with `InvalidPlan` where the predicate is not of boolean type
    /// or refers to a column that this plan does not produce.
    pub fn filter(self, predicate: TypedExpr) -> (r: Result<TypedPlan, Error>)
        ensures
            view_result(r) == self@.filter(predicate@),
    {
        let mut predicates: Vec<TypedExpr> = Vec::new();
        predicates.push(predicate);
        assert(typed_models(predicates@) =~= seq![predicate@]);
        let TypedPlan { typ, plan } = self;
        match plan {
            Plan::Mfp { input, mfp: old_mfp } => {
                match old_mfp.filter(predicates) {
                    Ok(mfp) => Ok(TypedPlan { typ, plan: Plan::Mfp { input, mfp } }),
                    Err(e) => Err(e),
                }
            },
            other => {
                match MapFilterProject::new(typ.arity()).filter(predicates) {
                    Ok(mfp) => Ok(TypedPlan { typ, plan: Plan::Mfp { input: Box::new(other), mfp } }),
                    Err(e) => Err(e),
                }
            },
        }
    }

    /// The plan for the selected expressions `exprs` over this plan.
    ///
    /// Where every expression is a literal the result is the constant plan
    /// of the one row of their values, at the least timestamp and with
    /// multiplicity 1; else it is the projection, which fails as
    /// [`TypedPlan::projection`] does.
    pub fn select(self, exprs: Vec<TypedExpr>) -> (r: Result<TypedPlan, Error>)
        ensures
            view_result(r) == self@.select(typed_models(exprs@)),
    {
        let ghost all = typed_models(exprs@);
        let mut is_literal = true;
        let mut i: usize = 0;
        while i < exprs.len()
            invariant
                i <= exprs@.len(),
                all == typed_models(exprs@),
                is_literal == (forall|j: int| 0 <= j < i ==> (#[trigger] all[j]).expr is Literal),
            decreases exprs@.len() - i,
        {
            assert(all[i as int] == exprs@[i as int]@);
            if !exprs[i].expr.is_literal() {
                is_literal = false;
            }
            i = i + 1;
        }
        if !is_literal {
            return self.projection(exprs);
        }
        let (literals, lit_types) = split_typed(exprs);
        let mut row: Row = Vec::new();
        let mut rest = literals;
        let mut k: usize = 0;
        while k < rest.len()
            invariant
                k <= rest@.len(),
                rest@.len() == literals@.len(),
                literals@.len() == all.len(),
                all_literals(all),
                ScalarExpr::models(literals@) == exprs_of(all),
                forall|j: int| k <= j < rest@.len() ==> rest@[j] == literals@[j],
                row@.len() == k,
                forall|j: int| 0 <= j < k ==> (#[trigger] row@[j])@ == all[j].expr->Literal_0,
            decreases rest@.len() - k,
        {
            assert(ScalarExpr::models(literals@)[k as int] == all[k as int].expr);
            assert(all[k as int].expr is Literal);
            let mut slot = ScalarExpr::Column(0);
            core::mem::swap(&mut rest[k], &mut slot);
            match slot {
                ScalarExpr::Literal(v, _) => {
                    row.push(v);
                },
                _ => {
                    // every expression is a literal
                    row.push(Value::Null);
                },
            }
            k = k + 1;
        }
        let mut rows: Vec<(Row, Timestamp, Diff)> = Vec::new();
        rows.push((row, TIMESTAMP_MIN, 1));
        let plan = Plan::Constant { rows };
        assert(plan@->Constant_rows =~= seq![(literal_values(all), TIMESTAMP_MIN as int, 1int)])
            by {
            assert(row_model(row@) =~= literal_values(all));
        }
        Ok(TypedPlan { typ: RelationType::new(lit_types), plan })
    }
}

/// A copy of a row.
fn clone_row(row: &Row) -> (r: Row)
    ensures
        row_model(r@) == row_model(row@),
{
    let mut out: Row = Vec::new();
    let mut i: usize = 0;
    while i < row.len()
        invariant
            i <= row@.len(),
            out@.len() == i,
            forall|j: int| 0 <= j < i ==> #[trigger] out@[j] == row@[j],
        decreases row@.len() - i,
    {
        out.push(row[i].clone());
        i = i + 1;
    }
    assert(row_model(out@) =~= row_model(row@));
    out
}

impl Clone for Plan {
    /// A copy that stands for the same plan.
    #[verifier::loop_isolation(false)]
    fn clone(&self) -> (r: Self)
        ensures
            r@ == self@,
        decreases self,
    {
        match self {
            Plan::Constant { rows } => {
                let mut out: Vec<(Row, Timestamp, Diff)> = Vec::new();
                let mut i: usize = 0;
                while i < rows.len()
                    invariant
                        i <= rows@.len(),
                        out@.len() == i,
                        forall|j: int|
                            0 <= j < i ==> row_model((#[trigger] out@[j]).0@) == row_model(
                                rows@[j].0@,
                            ) && out@[j].1 == rows@[j].1 && out@[j].2 == rows@[j].2,
                    decreases rows@.len() - i,
                {
                    out.push((clone_row(&rows[i].0), rows[i].1, rows[i].2));
                    i = i + 1;
                }
                let r = Plan::Constant { rows: out };
                assert(r@->Constant_rows =~= self@->Constant_rows);
                r
            },
            Plan::Get { id } => Plan::Get { id: *id },
            Plan::Mfp { input, mfp } => Plan::Mfp {
                input: Box::new((**input).clone()),
                mfp: mfp.clone(),
            },
        }
    }
}

impl Clone for TypedPlan {
    /// A copy that stands for the same typed plan.
    fn clone(&self) -> (r: Self)
        ensures
            r@ == self@,
    {
        TypedPlan { typ: self.typ.clone(), plan: self.plan.clone() }
    }
}

} // verus!
