use flow::datatypes::ConcreteDataType as CDT;
use flow::error::Error;
use flow::expr::scalar::TypedExpr;
use flow::proto::{
    ArgType, Cast, Expression, FieldReference, FunctionArgument, FunctionExtensions, IfClause,
    IfThen, Kind, Literal, LiteralType, RexType, ScalarFunction, SingularOrList, Type,
    DEFAULT_TYPE_REF,
};
use flow::repr::{ColumnType, RelationType};
use flow::transform::depth::nesting_is_within;

fn schema() -> RelationType {
    RelationType::new(vec![ColumnType::new(CDT::Int64, false)])
}

fn names() -> FunctionExtensions {
    let mut ext = FunctionExtensions::new();
    ext.insert(1, "add".to_string());
    ext
}

fn one() -> Expression {
    Expression {
        rex_type: Some(RexType::Literal(Literal {
            literal_type: Some(LiteralType::I64(1)),
            type_variation_reference: DEFAULT_TYPE_REF,
        })),
    }
}

fn column() -> Expression {
    Expression {
        rex_type: Some(RexType::Selection(FieldReference::StructField {
            field: 0,
            has_child: false,
        })),
    }
}

fn add(left: Expression, right: Expression) -> Expression {
    Expression {
        rex_type: Some(RexType::ScalarFunction(ScalarFunction {
            function_reference: 1,
            arguments: vec![
                FunctionArgument {
                    arg_type: Some(ArgType::Value(left)),
                },
                FunctionArgument {
                    arg_type: Some(ArgType::Value(right)),
                },
            ],
        })),
    }
}

fn cast(input: Expression) -> Expression {
    Expression {
        rex_type: Some(RexType::Cast(Box::new(Cast {
            typ: Some(Type {
                kind: Some(Kind::I64),
                type_variation_reference: DEFAULT_TYPE_REF,
            }),
            input: Some(Box::new(input)),
        }))),
    }
}

#[test]
fn nesting_of_small_trees() {
    assert!(!nesting_is_within(&one(), 0));
    assert!(nesting_is_within(&one(), 1));
    assert!(nesting_is_within(&Expression { rex_type: None }, 1));
    let sum = add(column(), one());
    assert!(!nesting_is_within(&sum, 1));
    assert!(nesting_is_within(&sum, 2));
    let nested = add(sum, cast(cast(one())));
    assert!(!nesting_is_within(&nested, 3));
    assert!(nesting_is_within(&nested, 4));
    assert!(nesting_is_within(&nested, usize::MAX));
    let chain = Expression {
        rex_type: Some(RexType::IfThen(Box::new(IfThen {
            ifs: vec![
                IfClause {
                    cond: Some(one()),
                    then: Some(cast(one())),
                },
                IfClause {
                    cond: None,
                    then: None,
                },
            ],
            els: Some(Box::new(cast(cast(one())))),
        }))),
    };
    assert!(!nesting_is_within(&chain, 3));
    assert!(nesting_is_within(&chain, 4));
    // the options of a value wrapper are not descended into
    let wrapper = Expression {
        rex_type: Some(RexType::SingularOrList(Box::new(SingularOrList {
            value: Some(Box::new(one())),
            options: vec![cast(cast(cast(one())))],
        }))),
    };
    assert!(nesting_is_within(&wrapper, 2));
    assert!(!nesting_is_within(&wrapper, 1));
}

#[test]
fn translation_within_a_bound() {
    let e = add(column(), cast(one()));
    let unbounded = TypedExpr::from_substrait_rex(&e, &schema(), &names());
    assert!(unbounded.is_ok());
    assert_eq!(
        TypedExpr::from_substrait_rex_within(&e, &schema(), &names(), 3),
        unbounded
    );
    assert_eq!(
        TypedExpr::from_substrait_rex_within(&e, &schema(), &names(), 64),
        unbounded
    );
    assert_eq!(
        TypedExpr::from_substrait_rex_within(&e, &schema(), &names(), 2),
        Err(Error::UnsupportedFeature)
    );
    assert_eq!(
        TypedExpr::from_substrait_rex_within(&e, &schema(), &names(), 0),
        Err(Error::UnsupportedFeature)
    );
}

#[test]
fn very_deep_tree_is_refused_without_descending() {
    let mut e = column();
    for _ in 0..200_000 {
        e = cast(e);
    }
    assert_eq!(
        TypedExpr::from_substrait_rex_within(&e, &schema(), &names(), 128),
        Err(Error::UnsupportedFeature)
    );
    assert!(!nesting_is_within(&e, 128));
    // taking the tree apart level by level keeps the stack flat
    let mut rest = Some(e);
    while let Some(mut node) = rest {
        rest = match node.rex_type.take() {
            Some(RexType::Cast(mut cast)) => cast.input.take().map(|b| *b),
            _ => None,
        };
    }
}
