//! The map-filter-project operator and its builder.

use vstd::prelude::*;
use crate::datatypes::ConcreteDataType;
use crate::error::Error;
use crate::expr::scalar::indices;
use crate::expr::scalar::lemma_columns_below_mono;
use crate::expr::scalar::lemma_permute_below;
use crate::expr::scalar::lemma_support;
use crate::expr::scalar::ScalarExpr;
use crate::expr::scalar::SpecExpr;
use crate::expr::scalar::SpecTypedExpr;
use crate::expr::scalar::TypedExpr;

verus! {

/// The predicates `preds`, sorted by position, with `item` put behind every
/// predicate whose position is not greater than its own.
pub open spec fn insert_sorted(preds: Seq<(nat, SpecExpr)>, item: (nat, SpecExpr)) -> Seq<
    (nat, SpecExpr),
>
    decreases preds.len(),
{
    if preds.len() == 0 || preds.last().0 <= item.0 {
        preds.push(item)
    } else {
        insert_sorted(preds.drop_last(), item).push(preds.last())
    }
}

/// The mathematical content of a [`MapFilterProject`].
///
/// The operator works on rows of `input_arity` columns. Expression `i`
/// computes column `input_arity + i`. A predicate with position `p` reads
/// only columns below `p` and is applied as soon as they exist. The
/// projection lists the columns of the output row.
pub ghost struct SpecMfp {
    pub expressions: Seq<SpecExpr>,
    pub predicates: Seq<(nat, SpecExpr)>,
    pub projection: Seq<nat>,
    pub input_arity: nat,
}

impl SpecMfp {
    /// The operator that hands its input through.
    pub open spec fn new(input_arity: nat) -> SpecMfp {
        SpecMfp {
            expressions: seq![],
            predicates: seq![],
            projection: Seq::new(input_arity, |i: int| i as nat),
            input_arity,
        }
    }

    /// The number of columns after the map stage.
    pub open spec fn width(self) -> nat {
        self.input_arity + self.expressions.len()
    }

    /// Every reference is to a column that exists where it is read, and the
    /// predicates are sorted by position.
    pub open spec fn well_formed(self) -> bool {
        &&& forall|i: int|
            0 <= i < self.expressions.len() ==> (#[trigger] self.expressions[i]).columns_below(
                (self.input_arity + i) as nat,
            )
        &&& forall|i: int|
            0 <= i < self.predicates.len() ==> {
                &&& (#[trigger] self.predicates[i]).1.support() == self.predicates[i].0
                &&& self.predicates[i].0 <= self.width()
            }
        &&& forall|i: int, j: int|
            0 <= i <= j < self.predicates.len() ==> (#[trigger] self.predicates[i]).0 <= (
            #[trigger] self.predicates[j]).0
        &&& forall|i: int|
            0 <= i < self.projection.len() ==> #[trigger] self.projection[i] < self.width()
    }

    /// The operator with one more computed column, which becomes the last
    /// column of the output. The expression is written over the output
    /// columns.
    pub open spec fn map_one(self, e: SpecExpr) -> Result<SpecMfp, Error> {
        if !e.columns_below(self.projection.len()) || self.width() >= usize::MAX {
            Err(Error::InvalidPlan)
        } else {
            Ok(
                SpecMfp {
                    expressions: self.expressions.push(e.permute(self.projection)),
                    projection: self.projection.push(self.width()),
                    ..self
                },
            )
        }
    }

    /// The operator with the computed columns `es` added in order.
    pub open spec fn map(self, es: Seq<SpecExpr>) -> Result<SpecMfp, Error>
        decreases es.len(),
    {
        if es.len() == 0 {
            Ok(self)
        } else {
            match self.map_one(es[0]) {
                Ok(next) => next.map(es.drop_first()),
                Err(e) => Err(e),
            }
        }
    }

    /// The operator with one more predicate, written over the output
    /// columns.
    pub open spec fn filter_one(self, e: SpecExpr) -> Result<SpecMfp, Error> {
        if !e.columns_below(self.projection.len()) {
            Err(Error::InvalidPlan)
        } else {
            let p = e.permute(self.projection);
            Ok(SpecMfp { predicates: insert_sorted(self.predicates, (p.support(), p)), ..self })
        }
    }

    /// The operator with the predicates `es` added in order.
    pub open spec fn filter_exprs(self, es: Seq<SpecExpr>) -> Result<SpecMfp, Error>
        decreases es.len(),
    {
        if es.len() == 0 {
            Ok(self)
        } else {
            match self.filter_one(es[0]) {
                Ok(next) => next.filter_exprs(es.drop_first()),
                Err(e) => Err(e),
            }
        }
    }

    /// The operator with the typed predicates `ps` added in order; each
    /// must be of boolean type.
    pub open spec fn filter(self, ps: Seq<SpecTypedExpr>) -> Result<SpecMfp, Error>
        decreases ps.len(),
    {
        if ps.len() == 0 {
            Ok(self)
        } else if ps[0].typ.scalar_type != ConcreteDataType::Boolean {
            Err(Error::InvalidPlan)
        } else {
            match self.filter_one(ps[0].expr) {
                Ok(next) => next.filter(ps.drop_first()),
                Err(e) => Err(e),
            }
        }
    }

    /// The operator whose output is the listed output columns, in the
    /// listed order.
    pub open spec fn project(self, columns: Seq<nat>) -> Result<SpecMfp, Error> {
        if forall|i: int| 0 <= i < columns.len() ==> #[trigger] columns[i] < self.projection.len() {
            Ok(
                SpecMfp {
                    projection: Seq::new(columns.len(), |i: int| self.projection[columns[i] as int]),
                    ..self
                },
            )
        } else {
            Err(Error::InvalidPlan)
        }
    }

    /// The operator that applies `self` and then `after`.
    pub open spec fn compose(self, after: SpecMfp) -> Result<SpecMfp, Error> {
        match self.map(after.expressions) {
            Err(e) => Err(e),
            Ok(mapped) => match mapped.filter_exprs(
                Seq::new(after.predicates.len(), |i: int| after.predicates[i].1),
            ) {
                Err(e) => Err(e),
                Ok(filtered) => filtered.project(after.projection),
            },
        }
    }
}

/// Insertion keeps the predicates sorted, and changes neither the
/// predicates that were there nor the added one.
pub proof fn lemma_insert_sorted(preds: Seq<(nat, SpecExpr)>, item: (nat, SpecExpr))
    requires
        forall|i: int, j: int|
            0 <= i <= j < preds.len() ==> (#[trigger] preds[i]).0 <= (#[trigger] preds[j]).0,
    ensures
        insert_sorted(preds, item).len() == preds.len() + 1,
        forall|i: int, j: int|
            0 <= i <= j < insert_sorted(preds, item).len() ==> (#[trigger] insert_sorted(
                preds,
                item,
            )[i]).0 <= (#[trigger] insert_sorted(preds, item)[j]).0,
        forall|i: int|
            0 <= i < insert_sorted(preds, item).len() ==> (#[trigger] insert_sorted(preds, item)[i])
                == item || preds.contains(insert_sorted(preds, item)[i]),
    decreases preds.len(),
{
    let out = insert_sorted(preds, item);
    if preds.len() == 0 || preds.last().0 <= item.0 {
        assert forall|i: int| 0 <= i < out.len() implies (#[trigger] out[i]) == item
            || preds.contains(out[i]) by {
            if i < preds.len() {
                assert(out[i] == preds[i]);
            }
        }
    } else {
        let front = preds.drop_last();
        lemma_insert_sorted(front, item);
        let inner = insert_sorted(front, item);
        assert forall|i: int| 0 <= i < out.len() implies (#[trigger] out[i]) == item
            || preds.contains(out[i]) by {
            if i < inner.len() {
                assert(out[i] == inner[i]);
                if inner[i] != item {
                    assert(front.contains(inner[i]));
                    let k = choose|k: int| 0 <= k < front.len() && front[k] == inner[i];
                    assert(preds[k] == inner[i]);
                }
            } else {
                assert(out[i] == preds[preds.len() - 1]);
            }
        }
        assert forall|i: int, j: int| 0 <= i <= j < out.len() implies (#[trigger] out[i]).0 <= (
        #[trigger] out[j]).0 by {
            if j < inner.len() {
                assert(out[i] == inner[i] && out[j] == inner[j]);
            } else if i < inner.len() {
                assert(out[i] == inner[i]);
                if inner[i] != item {
                    assert(front.contains(inner[i]));
                    let k = choose|k: int| 0 <= k < front.len() && front[k] == inner[i];
                    assert(preds[k].0 <= preds[preds.len() - 1].0);
                }
            }
        }
    }
}

/// A successful map stage adds one output column for each expression, and
/// leaves the predicates and the input arity as they are.
pub proof fn lemma_map_shape(m: SpecMfp, es: Seq<SpecExpr>)
    requires
        m.map(es) is Ok,
    ensures
        m.map(es)->Ok_0.projection.len() == m.projection.len() + es.len(),
        m.map(es)->Ok_0.expressions.len() == m.expressions.len() + es.len(),
        m.map(es)->Ok_0.predicates == m.predicates,
        m.map(es)->Ok_0.input_arity == m.input_arity,
    decreases es.len(),
{
    if es.len() > 0 {
        lemma_map_shape(m.map_one(es[0])->Ok_0, es.drop_first());
    }
}

/// One more computed column keeps the operator well formed.
pub proof fn lemma_map_one_well_formed(m: SpecMfp, e: SpecExpr)
    requires
        m.well_formed(),
        m.map_one(e) is Ok,
    ensures
        m.map_one(e)->Ok_0.well_formed(),
{
    let next = m.map_one(e)->Ok_0;
    lemma_permute_below(e, m.projection, m.width());
    assert forall|i: int| 0 <= i < next.expressions.len() implies (
    #[trigger] next.expressions[i]).columns_below((next.input_arity + i) as nat) by {
        if i < m.expressions.len() {
            assert(next.expressions[i] == m.expressions[i]);
        }
    }
    assert forall|i: int| 0 <= i < next.projection.len() implies #[trigger] next.projection[i]
        < next.width() by {
        if i < m.projection.len() {
            assert(next.projection[i] == m.projection[i]);
        }
    }
}

/// One more predicate keeps the operator well formed.
pub proof fn lemma_filter_one_well_formed(m: SpecMfp, e: SpecExpr)
    requires
        m.well_formed(),
        m.filter_one(e) is Ok,
    ensures
        m.filter_one(e)->Ok_0.well_formed(),
{
    let next = m.filter_one(e)->Ok_0;
    let p = e.permute(m.projection);
    lemma_permute_below(e, m.projection, m.width());
    lemma_support(p, m.width());
    lemma_insert_sorted(m.predicates, (p.support(), p));
    assert forall|i: int| 0 <= i < next.predicates.len() implies {
        &&& (#[trigger] next.predicates[i]).1.support() == next.predicates[i].0
        &&& next.predicates[i].0 <= next.width()
    } by {
        if next.predicates[i] != (p.support(), p) {
            assert(m.predicates.contains(next.predicates[i]));
            let k = choose|k: int|
                0 <= k < m.predicates.len() && m.predicates[k] == next.predicates[i];
            assert(m.predicates[k].1.support() == m.predicates[k].0);
        }
    }
}

/// A projection keeps the operator well formed.
pub proof fn lemma_project_well_formed(m: SpecMfp, columns: Seq<nat>)
    requires
        m.well_formed(),
        m.project(columns) is Ok,
    ensures
        m.project(columns)->Ok_0.well_formed(),
{
    let next = m.project(columns)->Ok_0;
    assert forall|i: int| 0 <= i < next.projection.len() implies #[trigger] next.projection[i]
        < next.width() by {
        assert(columns[i] < m.projection.len());
        assert(next.projection[i] == m.projection[columns[i] as int]);
    }
}

/// A map-filter-project operator: computed columns are appended to each
/// row, rows that fail a predicate are dropped, and the listed columns are
/// handed on.
///
/// The builder methods take expressions written over the current output
/// columns and rewrite them over the columns of the row itself.
#[derive(Debug, PartialEq, Eq)]
pub struct MapFilterProject {
    expressions: Vec<ScalarExpr>,
    predicates: Vec<(usize, ScalarExpr)>,
    projection: Vec<usize>,
    input_arity: usize,
}

/// The predicates of an operator as pairs of position and expression.
pub open spec fn predicate_models(s: Seq<(usize, ScalarExpr)>) -> Seq<(nat, SpecExpr)> {
    Seq::new(s.len(), |i: int| (s[i].0 as nat, s[i].1@))
}

impl View for MapFilterProject {
    type V = SpecMfp;

    closed spec fn view(&self) -> SpecMfp {
        SpecMfp {
            expressions: ScalarExpr::models(self.expressions@),
            predicates: predicate_models(self.predicates@),
            projection: indices(self.projection@),
            input_arity: self.input_arity as nat,
        }
    }
}

impl MapFilterProject {
    #[verifier::type_invariant]
    spec fn valid(self) -> bool {
        self@.well_formed() && self@.width() <= usize::MAX
    }

    /// The operator that hands rows of `input_arity` columns through.
    pub fn new(input_arity: usize) -> (r: MapFilterProject)
        ensures
            r@ == SpecMfp::new(input_arity as nat),
            r@.well_formed(),
    {
        let mut projection: Vec<usize> = Vec::new();
        let mut i: usize = 0;
        while i < input_arity
            invariant
                i <= input_arity,
                projection@.len() == i,
                forall|j: int| 0 <= j < i ==> projection@[j] == j,
            decreases input_arity - i,
        {
            projection.push(i);
            i = i + 1;
        }
        let r = MapFilterProject {
            expressions: Vec::new(),
            predicates: Vec::new(),
            projection,
            input_arity,
        };
        assert(r@.expressions =~= seq![]);
        assert(r@.predicates =~= seq![]);
        assert(r@.projection =~= Seq::new(input_arity as nat, |i: int| i as nat));
        r
    }

    /// The number of columns in a row that the operator takes.
    pub fn input_arity(&self) -> (n: usize)
        ensures
            n == self@.input_arity,
    {
        self.input_arity
    }

    /// The number of columns in a row that the operator hands on.
    pub fn output_arity(&self) -> (n: usize)
        ensures
            n == self@.projection.len(),
    {
        self.projection.len()
    }

    /// The computed columns, in order.
    pub fn expressions(&self) -> (r: &Vec<ScalarExpr>)
        ensures
            ScalarExpr::models(r@) == self@.expressions,
    {
        &self.expressions
    }

    /// The predicates, each with the position at which it is applied,
    /// sorted by position.
    pub fn predicates(&self) -> (r: &Vec<(usize, ScalarExpr)>)
        ensures
            predicate_models(r@) == self@.predicates,
    {
        &self.predicates
    }

    /// The columns of the output row.
    pub fn projection(&self) -> (r: &Vec<usize>)
        ensures
            indices(r@) == self@.projection,
    {
        &self.projection
    }

    /// Appends computed columns, each written over the current output
    /// columns; each becomes the last column of the output.
    ///
    /// Fails with `InvalidPlan` where an expression refers to a column that
    /// the output does not have.
    #[verifier::loop_isolation(false)]
    pub fn map(self, expressions: Vec<ScalarExpr>) -> (r: Result<MapFilterProject, Error>)
        ensures
            crate::error::view_result(r) == self@.map(ScalarExpr::models(expressions@)),
            r matches Ok(m) ==> m@.well_formed(),
    {
        proof {
            use_type_invariant(&self);
        }
        let ghost all = ScalarExpr::models(expressions@);
        let ghost start = self@;
        let MapFilterProject { expressions: mut exprs, predicates, mut projection, input_arity } =
            self;
        let ghost preds = predicate_models(predicates@);
        let mut rest = expressions;
        let mut i: usize = 0;
        assert(all.skip(0) =~= all);
        while i < rest.len()
            invariant
                i <= rest@.len(),
                rest@.len() == expressions@.len(),
                all == ScalarExpr::models(expressions@),
                forall|j: int| i <= j < rest@.len() ==> rest@[j] == expressions@[j],
                ({
                    let cur = SpecMfp {
                        expressions: ScalarExpr::models(exprs@),
                        predicates: preds,
                        projection: indices(projection@),
                        input_arity: input_arity as nat,
                    };
                    &&& cur.well_formed()
                    &&& cur.width() <= usize::MAX
                    &&& cur.map(all.skip(i as int)) == start.map(all)
                }),
            decreases rest@.len() - i,
        {
            let ghost cur = SpecMfp {
                expressions: ScalarExpr::models(exprs@),
                predicates: preds,
                projection: indices(projection@),
                input_arity: input_arity as nat,
            };
            let ghost tail = all.skip(i as int);
            assert(tail[0] == expressions@[i as int]@);
            assert(tail.drop_first() =~= all.skip(i + 1));
            assert(tail.len() > 0);
            assert(cur.map(tail) == match cur.map_one(tail[0]) {
                Ok(next) => next.map(tail.drop_first()),
                Err(e) => Err(e),
            });
            let mut slot = ScalarExpr::Column(0);
            core::mem::swap(&mut rest[i], &mut slot);
            let expression = match slot.permuted(&projection) {
                Ok(e) => e,
                Err(err) => { return Err(err); },
            };
            if exprs.len() >= usize::MAX - input_arity {
                return Err(Error::InvalidPlan);
            }
            proof {
                lemma_map_one_well_formed(cur, tail[0]);
            }
            let ghost old_exprs = ScalarExpr::models(exprs@);
            let ghost old_proj = indices(projection@);
            exprs.push(expression);
            projection.push(input_arity + exprs.len() - 1);
            assert(ScalarExpr::models(exprs@) =~= old_exprs.push(tail[0].permute(old_proj)));
            assert(indices(projection@) =~= old_proj.push(cur.width()));
            i = i + 1;
        }
        Ok(MapFilterProject { expressions: exprs, predicates, projection, input_arity })
    }

    /// Adds predicates, each written over the current output columns. A
    /// predicate is applied as soon as the columns it reads exist; among
    /// predicates of one position, the earlier one comes first.
    #[verifier::loop_isolation(false)]
    fn filter_exprs(self, predicates: Vec<ScalarExpr>) -> (r: Result<MapFilterProject, Error>)
        ensures
            crate::error::view_result(r) == self@.filter_exprs(ScalarExpr::models(predicates@)),
            r matches Ok(m) ==> m@.well_formed(),
    {
        proof {
            use_type_invariant(&self);
        }
        let ghost all = ScalarExpr::models(predicates@);
        let ghost start = self@;
        let mut cur = self;
        let mut rest = predicates;
        let mut i: usize = 0;
        assert(all.skip(0) =~= all);
        while i < rest.len()
            invariant
                i <= rest@.len(),
                rest@.len() == predicates@.len(),
                all == ScalarExpr::models(predicates@),
                forall|j: int| i <= j < rest@.len() ==> rest@[j] == predicates@[j],
                cur@.well_formed(),
                cur@.filter_exprs(all.skip(i as int)) == start.filter_exprs(all),
            decreases rest@.len() - i,
        {
            let ghost tail = all.skip(i as int);
            assert(tail[0] == predicates@[i as int]@);
            assert(tail.drop_first() =~= all.skip(i + 1));
            assert(tail.len() > 0);
            assert(cur@.filter_exprs(tail) == match cur@.filter_one(tail[0]) {
                Ok(next) => next.filter_exprs(tail.drop_first()),
                Err(e) => Err(e),
            });
            let mut slot = ScalarExpr::Column(0);
            core::mem::swap(&mut rest[i], &mut slot);
            cur = match cur.filter_one(slot) {
                Ok(m) => m,
                Err(err) => { return Err(err); },
            };
            i = i + 1;
        }
        Ok(cur)
    }

    /// Adds one predicate, written over the current output columns.
    #[verifier::loop_isolation(false)]
    fn filter_one(self, predicate: ScalarExpr) -> (r: Result<MapFilterProject, Error>)
        ensures
            crate::error::view_result(r) == self@.filter_one(predicate@),
            r matches Ok(m) ==> m@.well_formed(),
    {
        proof {
            use_type_invariant(&self);
        }
        let ghost start = self@;
        let MapFilterProject { expressions, predicates: mut preds, projection, input_arity } = self;
        let p = match predicate.permuted(&projection) {
            Ok(e) => e,
            Err(err) => { return Err(err); },
        };
        proof {
            lemma_filter_one_well_formed(start, predicate@);
            lemma_permute_below(predicate@, start.projection, start.width());
            lemma_columns_below_mono(p@, start.width(), usize::MAX as nat);
            lemma_support(p@, start.width());
        }
        let position = p.support();
        let ghost item = (position as nat, p@);
        let ghost before = predicate_models(preds@);
        // the place behind the last predicate whose position is not greater
        let mut at: usize = preds.len();
        assert(before.take(at as int) =~= before);
        while at > 0 && preds[at - 1].0 > position
            invariant
                at <= preds@.len(),
                before == predicate_models(preds@),
                insert_sorted(before, item) == insert_sorted(before.take(at as int), item)
                    + before.skip(at as int),
            decreases at,
        {
            let ghost head = before.take(at as int);
            assert(head.len() > 0);
            assert(head.last() == before[at - 1]);
            assert(before[at - 1].0 == preds@[at - 1].0 as nat);
            assert(head.drop_last() =~= before.take(at - 1));
            assert(insert_sorted(head, item) == insert_sorted(head.drop_last(), item).push(
                head.last(),
            ));
            assert(insert_sorted(head.drop_last(), item).push(head.last()) + before.skip(at as int)
                =~= insert_sorted(head.drop_last(), item) + before.skip(at - 1));
            at = at - 1;
        }
        proof {
            let head = before.take(at as int);
            if at > 0 {
                assert(head.last() == before[at - 1]);
                assert(before[at - 1].0 == preds@[at - 1].0 as nat);
            }
            assert(insert_sorted(head, item) == head.push(item));
        }
        preds.insert(at, (position, p));
        assert(predicate_models(preds@) =~= before.take(at as int).push(item) + before.skip(
            at as int,
        ));
        Ok(MapFilterProject { expressions, predicates: preds, projection, input_arity })
    }

    /// Keeps only the rows that satisfy every one of the predicates, each
    /// written over the current output columns.
    ///
    /// Fails with `InvalidPlan` where a predicate is not of boolean type or
    /// refers to a column that the output does not have.
    #[verifier::loop_isolation(false)]
    pub fn filter(self, predicates: Vec<TypedExpr>) -> (r: Result<MapFilterProject, Error>)
        ensures
            crate::error::view_result(r) == self@.filter(
                crate::expr::scalar::typed_models(predicates@),
            ),
            r matches Ok(m) ==> m@.well_formed(),
    {
        proof {
            use_type_invariant(&self);
        }
        let ghost all = crate::expr::scalar::typed_models(predicates@);
        let ghost start = self@;
        let mut cur = self;
        let mut rest = predicates;
        let mut i: usize = 0;
        assert(all.skip(0) =~= all);
        while i < rest.len()
            invariant
                i <= rest@.len(),
                rest@.len() == predicates@.len(),
                all == crate::expr::scalar::typed_models(predicates@),
                forall|j: int| i <= j < rest@.len() ==> rest@[j] == predicates@[j],
                cur@.well_formed(),
                cur@.filter(all.skip(i as int)) == start.filter(all),
            decreases rest@.len() - i,
        {
            let ghost tail = all.skip(i as int);
            assert(tail[0] == predicates@[i as int]@);
            assert(tail.drop_first() =~= all.skip(i + 1));
            assert(tail.len() > 0);
            assert(cur@.filter(tail) == if tail[0].typ.scalar_type != ConcreteDataType::Boolean {
                Err(Error::InvalidPlan)
            } else {
                match cur@.filter_one(tail[0].expr) {
                    Ok(next) => next.filter(tail.drop_first()),
                    Err(e) => Err(e),
                }
            });
            let mut slot = TypedExpr::new(
                ScalarExpr::Column(0),
                crate::repr::ColumnType::new_nullable(ConcreteDataType::Null),
            );
            core::mem::swap(&mut rest[i], &mut slot);
            if slot.typ.scalar_type != ConcreteDataType::Boolean {
                return Err(Error::InvalidPlan);
            }
            cur = match cur.filter_one(slot.expr) {
                Ok(m) => m,
                Err(err) => { return Err(err); },
            };
            i = i + 1;
        }
        Ok(cur)
    }

    /// Keeps only the listed output columns, in the listed order.
    ///
    /// Fails with `InvalidPlan` where a listed index is not below the
    /// number of output columns.
    #[verifier::loop_isolation(false)]
    pub fn project(self, columns: Vec<usize>) -> (r: Result<MapFilterProject, Error>)
        ensures
            crate::error::view_result(r) == self@.project(indices(columns@)),
            r matches Ok(m) ==> m@.well_formed(),
    {
        proof {
            use_type_invariant(&self);
        }
        let ghost start = self@;
        let ghost cols = indices(columns@);
        let MapFilterProject { expressions, predicates, projection, input_arity } = self;
        let mut out: Vec<usize> = Vec::new();
        let mut i: usize = 0;
        while i < columns.len()
            invariant
                i <= columns@.len(),
                out@.len() == i,
                cols == indices(columns@),
                forall|j: int| 0 <= j < i ==> #[trigger] cols[j] < projection@.len(),
                forall|j: int| 0 <= j < i ==> #[trigger] out@[j] == projection@[columns@[j] as int],
            decreases columns@.len() - i,
        {
            let c = columns[i];
            if c >= projection.len() {
                assert(cols[i as int] == columns@[i as int] as nat);
                assert(start.projection.len() == projection@.len());
                assert(!(cols[i as int] < start.projection.len()));
                return Err(Error::InvalidPlan);
            }
            out.push(projection[c]);
            i = i + 1;
        }
        proof {
            lemma_project_well_formed(start, cols);
            assert(indices(out@) =~= Seq::new(
                cols.len(),
                |i: int| start.projection[cols[i] as int],
            ));
        }
        Ok(MapFilterProject { expressions, predicates, projection: out, input_arity })
    }

    /// The operator that applies `before` and then `after`: the stages of
    /// `after`, added to `before` in the order map, filter, project.
    #[verifier::loop_isolation(false)]
    pub fn compose(before: MapFilterProject, after: MapFilterProject) -> (r: Result<
        MapFilterProject,
        Error,
    >)
        ensures
            crate::error::view_result(r) == before@.compose(after@),
            r matches Ok(m) ==> m@.well_formed(),
    {
        let MapFilterProject { expressions, predicates, projection, input_arity: _ } = after;
        let ghost preds = predicate_models(predicates@);
        let mut filters: Vec<ScalarExpr> = Vec::new();
        let mut rest = predicates;
        let mut i: usize = 0;
        while i < rest.len()
            invariant
                i <= rest@.len(),
                rest@.len() == predicates@.len(),
                forall|j: int| i <= j < rest@.len() ==> rest@[j] == predicates@[j],
                filters@.len() == i,
                forall|j: int| 0 <= j < i ==> (#[trigger] filters@[j])@ == predicates@[j].1@,
            decreases rest@.len() - i,
        {
            let mut slot = (0usize, ScalarExpr::Column(0));
            core::mem::swap(&mut rest[i], &mut slot);
            filters.push(slot.1);
            i = i + 1;
        }
        assert(ScalarExpr::models(filters@) =~= Seq::new(preds.len(), |i: int| preds[i].1));
        let mapped = match before.map(expressions) {
            Ok(m) => m,
            Err(e) => { return Err(e); },
        };
        let filtered = match mapped.filter_exprs(filters) {
            Ok(m) => m,
            Err(e) => { return Err(e); },
        };
        filtered.project(projection)
    }
}

impl Clone for MapFilterProject {
    /// A copy that stands for the same operator.
    #[verifier::loop_isolation(false)]
    fn clone(&self) -> (r: Self)
        ensures
            r@ == self@,
    {
        proof {
            use_type_invariant(self);
        }
        let mut expressions: Vec<ScalarExpr> = Vec::new();
        let mut i: usize = 0;
        while i < self.expressions.len()
            invariant
                i <= self.expressions@.len(),
                expressions@.len() == i,
                forall|j: int| 0 <= j < i ==> (#[trigger] expressions@[j])@ == self.expressions@[j]@,
            decreases self.expressions@.len() - i,
        {
            expressions.push(self.expressions[i].clone());
            i = i + 1;
        }
        let mut predicates: Vec<(usize, ScalarExpr)> = Vec::new();
        let mut k: usize = 0;
        while k < self.predicates.len()
            invariant
                k <= self.predicates@.len(),
                predicates@.len() == k,
                forall|j: int|
                    0 <= j < k ==> (#[trigger] predicates@[j]).0 == self.predicates@[j].0
                        && predicates@[j].1@ == self.predicates@[j].1@,
            decreases self.predicates@.len() - k,
        {
            predicates.push((self.predicates[k].0, self.predicates[k].1.clone()));
            k = k + 1;
        }
        let mut projection: Vec<usize> = Vec::new();
        let mut n: usize = 0;
        while n < self.projection.len()
            invariant
                n <= self.projection@.len(),
                projection@.len() == n,
                forall|j: int| 0 <= j < n ==> #[trigger] projection@[j] == self.projection@[j],
            decreases self.projection@.len() - n,
        {
            projection.push(self.projection[n]);
            n = n + 1;
        }
        assert(ScalarExpr::models(expressions@) =~= ScalarExpr::models(self.expressions@));
        assert(predicate_models(predicates@) =~= predicate_models(self.predicates@));
        assert(indices(projection@) =~= indices(self.projection@));
        MapFilterProject { expressions, predicates, projection, input_arity: self.input_arity }
    }
}

} // verus!
