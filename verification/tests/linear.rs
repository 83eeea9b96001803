use flow::datatypes::{ConcreteDataType as CDT, Value};
use flow::error::Error;
use flow::expr::func::{BinaryFunc, VariadicFunc};
use flow::expr::linear::MapFilterProject;
use flow::expr::scalar::{ScalarExpr, TypedExpr};
use flow::plan::{GlobalId, Id, Plan, TypedPlan};
use flow::repr::{ColumnType, RelationType};

fn column(c: usize) -> ScalarExpr {
    ScalarExpr::Column(c)
}

fn gt(a: ScalarExpr, b: ScalarExpr) -> ScalarExpr {
    a.call_binary(b, BinaryFunc::Gt)
}

fn boolean(e: ScalarExpr) -> TypedExpr {
    TypedExpr::new(e, ColumnType::new_nullable(CDT::Boolean))
}

fn and(exprs: Vec<ScalarExpr>) -> ScalarExpr {
    ScalarExpr::CallVariadic {
        func: VariadicFunc::And,
        exprs,
    }
}

fn or(exprs: Vec<ScalarExpr>) -> ScalarExpr {
    ScalarExpr::CallVariadic {
        func: VariadicFunc::Or,
        exprs,
    }
}

#[test]
fn new_operator_is_the_identity() {
    let mfp = MapFilterProject::new(3);
    assert_eq!(mfp.input_arity(), 3);
    assert_eq!(mfp.output_arity(), 3);
    assert_eq!(mfp.projection(), &vec![0, 1, 2]);
    assert!(mfp.expressions().is_empty());
    assert!(mfp.predicates().is_empty());
}

#[test]
fn map_appends_columns() {
    let mfp = MapFilterProject::new(2)
        .map(vec![gt(column(0), column(1)), column(2)])
        .unwrap();
    assert_eq!(mfp.output_arity(), 4);
    assert_eq!(mfp.projection(), &vec![0, 1, 2, 3]);
    assert_eq!(mfp.expressions(), &vec![gt(column(0), column(1)), column(2)]);
    // a column that does not exist yet
    assert_eq!(
        MapFilterProject::new(2).map(vec![column(2)]),
        Err(Error::InvalidPlan)
    );
    assert_eq!(
        MapFilterProject::new(2).map(vec![column(0), column(4)]),
        Err(Error::InvalidPlan)
    );
}

#[test]
fn expressions_are_written_over_the_output() {
    let mfp = MapFilterProject::new(3)
        .project(vec![2, 0])
        .unwrap()
        .map(vec![gt(column(0), column(1))])
        .unwrap();
    assert_eq!(mfp.expressions(), &vec![gt(column(2), column(0))]);
    assert_eq!(mfp.projection(), &vec![2, 0, 3]);
    assert_eq!(
        MapFilterProject::new(3)
            .project(vec![2, 0])
            .unwrap()
            .map(vec![column(2)]),
        Err(Error::InvalidPlan)
    );
}

#[test]
fn project_selects_output_columns() {
    let mfp = MapFilterProject::new(3).project(vec![2, 2, 1]).unwrap();
    assert_eq!(mfp.projection(), &vec![2, 2, 1]);
    let mfp = mfp.project(vec![2, 0]).unwrap();
    assert_eq!(mfp.projection(), &vec![1, 2]);
    assert_eq!(mfp.input_arity(), 3);
    assert_eq!(mfp.project(vec![2]), Err(Error::InvalidPlan));
    assert_eq!(
        MapFilterProject::new(0).project(vec![0]),
        Err(Error::InvalidPlan)
    );
    assert_eq!(MapFilterProject::new(0).project(vec![]).unwrap().output_arity(), 0);
}

#[test]
fn filter_needs_boolean_predicates_over_existing_columns() {
    let not_boolean = TypedExpr::new(column(0), ColumnType::new_nullable(CDT::Int64));
    assert_eq!(
        MapFilterProject::new(1).filter(vec![not_boolean]),
        Err(Error::InvalidPlan)
    );
    let untyped = TypedExpr::new(ScalarExpr::literal_null(), ColumnType::new_nullable(CDT::Null));
    assert_eq!(
        MapFilterProject::new(1).filter(vec![untyped]),
        Err(Error::InvalidPlan)
    );
    assert_eq!(
        MapFilterProject::new(1).filter(vec![boolean(column(1))]),
        Err(Error::InvalidPlan)
    );
    let ok = MapFilterProject::new(1).filter(vec![boolean(column(0))]).unwrap();
    assert_eq!(ok.predicates(), &vec![(1, column(0))]);
}

#[test]
fn predicates_are_sorted_by_position_and_stable() {
    let t = ScalarExpr::Literal(Value::Boolean(true), CDT::Boolean);
    let mfp = MapFilterProject::new(3)
        .filter(vec![
            boolean(gt(column(2), column(0))),
            boolean(column(0)),
            boolean(t.clone()),
            boolean(gt(column(0), column(0))),
            boolean(column(1)),
        ])
        .unwrap();
    assert_eq!(
        mfp.predicates(),
        &vec![
            (0, t),
            (1, column(0)),
            (1, gt(column(0), column(0))),
            (2, column(1)),
            (3, gt(column(2), column(0))),
        ]
    );
}

#[test]
fn compose_applies_one_operator_after_the_other() {
    let before = MapFilterProject::new(2)
        .map(vec![gt(column(0), column(1))])
        .unwrap()
        .project(vec![2, 0])
        .unwrap();
    let after = MapFilterProject::new(2)
        .filter(vec![boolean(column(0))])
        .unwrap()
        .map(vec![gt(column(1), column(1))])
        .unwrap()
        .project(vec![2])
        .unwrap();
    let composed = MapFilterProject::compose(before, after).unwrap();
    assert_eq!(composed.input_arity(), 2);
    assert_eq!(
        composed.expressions(),
        &vec![gt(column(0), column(1)), gt(column(0), column(0))]
    );
    assert_eq!(composed.predicates(), &vec![(3, column(2))]);
    assert_eq!(composed.projection(), &vec![3]);
}

#[test]
fn flattening() {
    let nested = and(vec![
        and(vec![column(0), and(vec![column(1), column(2)])]),
        or(vec![column(3), or(vec![column(4)])]),
        column(5),
        and(vec![]),
    ]);
    let flat = and(vec![
        column(0),
        column(1),
        column(2),
        or(vec![column(3), or(vec![column(4)])]),
        column(5),
    ]);
    assert_eq!(nested.clone().flattened(), flat);
    let mut e = nested;
    e.optimize();
    assert_eq!(e, flat);
    // again changes nothing
    e.optimize();
    assert_eq!(e, flat);
    let mut leaf = gt(column(0), and(vec![and(vec![column(1)])]));
    let same = leaf.clone();
    leaf.optimize();
    assert_eq!(leaf, same);
}

#[test]
fn column_bounds_and_support() {
    let e = ScalarExpr::If {
        cond: Box::new(gt(column(4), column(1))),
        then: Box::new(and(vec![column(0), column(6)])),
        els: Box::new(ScalarExpr::literal_null()),
    };
    assert!(e.columns_below(7));
    assert!(!e.columns_below(6));
    assert_eq!(e.support(), 7);
    assert_eq!(ScalarExpr::literal_null().support(), 0);
    assert!(ScalarExpr::literal_null().columns_below(0));
    assert_eq!(column(0).support(), 1);
    assert_eq!(
        e.clone().permuted(&vec![10, 11, 12, 13, 14, 15, 16]),
        Ok(ScalarExpr::If {
            cond: Box::new(gt(column(14), column(11))),
            then: Box::new(and(vec![column(10), column(16)])),
            els: Box::new(ScalarExpr::literal_null()),
        })
    );
    assert_eq!(e.permuted(&vec![0, 1, 2, 3, 4, 5]), Err(Error::InvalidPlan));
}

#[test]
fn plan_filter_and_projection() {
    let get = || Plan::Get {
        id: Id::Global(GlobalId::User(7)),
    };
    let typ = || RelationType::new(vec![ColumnType::new(CDT::Boolean, false), ColumnType::new(CDT::Int8, true)]);
    let plan = TypedPlan { typ: typ(), plan: get() };
    let filtered = plan.filter(boolean(column(0))).unwrap();
    assert_eq!(filtered.typ, typ());
    assert_eq!(
        filtered.plan,
        Plan::Mfp {
            input: Box::new(get()),
            mfp: MapFilterProject::new(2)
                .filter(vec![boolean(column(0))])
                .unwrap()
        }
    );
    let projected = filtered
        .projection(vec![TypedExpr::new(column(1), ColumnType::new(CDT::Int8, true))])
        .unwrap();
    assert_eq!(projected.typ, RelationType::new(vec![ColumnType::new(CDT::Int8, true)]));
    assert_eq!(
        projected.plan,
        Plan::Mfp {
            input: Box::new(get()),
            mfp: MapFilterProject::new(2)
                .filter(vec![boolean(column(0))])
                .unwrap()
                .map(vec![column(1)])
                .unwrap()
                .project(vec![2])
                .unwrap()
        }
    );
    let plan = TypedPlan { typ: typ(), plan: get() };
    assert_eq!(
        plan.filter(TypedExpr::new(column(1), ColumnType::new(CDT::Int8, true))),
        Err(Error::InvalidPlan)
    );
    let plan = TypedPlan { typ: typ(), plan: get() };
    assert_eq!(
        plan.projection(vec![TypedExpr::new(column(2), ColumnType::new(CDT::Int8, true))]),
        Err(Error::InvalidPlan)
    );
    assert_eq!(typ().arity(), 2);
    assert_eq!(typ().column_type(1), Some(ColumnType::new(CDT::Int8, true)));
    assert_eq!(typ().column_type(2), None);
}
