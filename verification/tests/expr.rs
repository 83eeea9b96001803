use flow::datatypes::{ConcreteDataType as CDT, Value};
use flow::error::Error;
use flow::expr::func::{BinaryFunc, UnaryFunc, VariadicFunc};
use flow::expr::linear::MapFilterProject;
use flow::expr::scalar::{ScalarExpr, TypedExpr};
use flow::plan::{GlobalId, Id, Plan, TypedPlan, TIMESTAMP_MIN};
use flow::proto::{
    ArgType, Cast, Expression, FieldReference, FunctionArgument, FunctionExtensions, IfClause,
    IfThen, Kind, Literal, LiteralType, RexType, ScalarFunction, SingularOrList, Type,
    WindowFunction, DEFAULT_TYPE_REF, UNSIGNED_INTEGER_TYPE_REF,
};
use flow::repr::{ColumnType, RelationType};

const GTE: u32 = 0;
const LTE: u32 = 1;
const AND: u32 = 2;
const NOT_EQUAL: u32 = 3;
const ADD: u32 = 4;
const SUBTRACT: u32 = 5;
const MULTIPLY: u32 = 6;
const DIVIDE: u32 = 7;
const MOD: u32 = 8;
const EQUAL: u32 = 9;
const NOT: u32 = 10;
const NOW: u32 = 11;
const OR: u32 = 12;
const UNKNOWN: u32 = 13;

fn extensions() -> FunctionExtensions {
    let mut ext = FunctionExtensions::new();
    ext.insert(GTE, "gte".to_string());
    ext.insert(LTE, "lte".to_string());
    ext.insert(AND, "and".to_string());
    ext.insert(NOT_EQUAL, "not_equal".to_string());
    ext.insert(ADD, "add".to_string());
    ext.insert(SUBTRACT, "subtract".to_string());
    ext.insert(MULTIPLY, "multiply".to_string());
    ext.insert(DIVIDE, "divide".to_string());
    ext.insert(MOD, "mod".to_string());
    ext.insert(EQUAL, "equal".to_string());
    ext.insert(NOT, "not".to_string());
    ext.insert(NOW, "now".to_string());
    ext.insert(OR, "or".to_string());
    ext.insert(UNKNOWN, "no_such_function".to_string());
    ext
}

fn numbers() -> RelationType {
    RelationType::new(vec![ColumnType::new(CDT::UInt32, false)])
}

fn numbers_plan() -> TypedPlan {
    TypedPlan {
        typ: numbers(),
        plan: Plan::Get {
            id: Id::Global(GlobalId::User(0)),
        },
    }
}

fn lit(n: i64) -> Expression {
    Expression {
        rex_type: Some(RexType::Literal(Literal {
            literal_type: Some(LiteralType::I64(n)),
            type_variation_reference: DEFAULT_TYPE_REF,
        })),
    }
}

fn col(field: i32) -> Expression {
    Expression {
        rex_type: Some(RexType::Selection(FieldReference::StructField {
            field,
            has_child: false,
        })),
    }
}

fn call(function_reference: u32, args: Vec<Expression>) -> Expression {
    Expression {
        rex_type: Some(RexType::ScalarFunction(ScalarFunction {
            function_reference,
            arguments: args
                .into_iter()
                .map(|e| FunctionArgument {
                    arg_type: Some(ArgType::Value(e)),
                })
                .collect(),
        })),
    }
}

fn translate(e: &Expression) -> Result<TypedExpr, Error> {
    TypedExpr::from_substrait_rex(e, &numbers(), &extensions())
}

fn u32_lit(n: u32) -> ScalarExpr {
    ScalarExpr::Literal(Value::UInt32(n), CDT::UInt32)
}

/// `SELECT number FROM numbers WHERE number >= 1 AND number <= 3 AND number!=2`
#[test]
fn test_where_and() {
    let cond = call(
        AND,
        vec![
            call(
                AND,
                vec![
                    call(GTE, vec![col(0), lit(1)]),
                    call(LTE, vec![col(0), lit(3)]),
                ],
            ),
            call(NOT_EQUAL, vec![col(0), lit(2)]),
        ],
    );
    let predicate = translate(&cond).unwrap();
    let selected = translate(&col(0)).unwrap();
    let flow_plan = numbers_plan()
        .filter(predicate)
        .and_then(|p| p.select(vec![selected]));

    // the chain of binary conjunctions is one variadic conjunction
    let filter = ScalarExpr::CallVariadic {
        func: VariadicFunc::And,
        exprs: vec![
            ScalarExpr::Column(0).call_binary(u32_lit(1), BinaryFunc::Gte),
            ScalarExpr::Column(0).call_binary(u32_lit(3), BinaryFunc::Lte),
            ScalarExpr::Column(0).call_binary(u32_lit(2), BinaryFunc::NotEq),
        ],
    };
    let expected = TypedPlan {
        typ: RelationType::new(vec![ColumnType::new(CDT::UInt32, false)]),
        plan: Plan::Mfp {
            input: Box::new(Plan::Get {
                id: Id::Global(GlobalId::User(0)),
            }),
            mfp: MapFilterProject::new(1)
                .map(vec![ScalarExpr::Column(0)])
                .unwrap()
                .filter(vec![TypedExpr::new(
                    filter,
                    ColumnType::new_nullable(CDT::Boolean),
                )])
                .unwrap()
                .project(vec![1])
                .unwrap(),
        },
    };
    assert_eq!(flow_plan.unwrap(), expected);
}

/// `SELECT 1+1*2-1/1+1%2==3 FROM numbers`
#[test]
fn test_binary_func_and_constant_folding() {
    let e = call(
        EQUAL,
        vec![
            call(
                ADD,
                vec![
                    call(
                        SUBTRACT,
                        vec![
                            call(ADD, vec![lit(1), call(MULTIPLY, vec![lit(1), lit(2)])]),
                            call(DIVIDE, vec![lit(1), lit(1)]),
                        ],
                    ),
                    call(MOD, vec![lit(1), lit(2)]),
                ],
            ),
            lit(3),
        ],
    );
    let folded = translate(&e).unwrap();
    let flow_plan = numbers_plan().select(vec![folded]);

    let expected = TypedPlan {
        typ: RelationType::new(vec![ColumnType::new(CDT::Boolean, true)]),
        plan: Plan::Constant {
            rows: vec![(vec![Value::Boolean(true)], TIMESTAMP_MIN, 1)],
        },
    };
    assert_eq!(flow_plan.unwrap(), expected);
    assert_eq!(TIMESTAMP_MIN, i64::MIN);
}

/// `SELECT number+1 FROM numbers`: the literal takes the type of the column
#[test]
fn test_implicitly_cast() {
    let e = call(ADD, vec![col(0), lit(1)]);
    let flow_plan = numbers_plan().select(vec![translate(&e).unwrap()]);

    let expected = TypedPlan {
        typ: RelationType::new(vec![ColumnType::new(CDT::UInt32, true)]),
        plan: Plan::Mfp {
            input: Box::new(Plan::Get {
                id: Id::Global(GlobalId::User(0)),
            }),
            mfp: MapFilterProject::new(1)
                .map(vec![
                    ScalarExpr::Column(0).call_binary(u32_lit(1), BinaryFunc::Add(CDT::UInt32))
                ])
                .unwrap()
                .project(vec![1])
                .unwrap(),
        },
    };
    assert_eq!(flow_plan.unwrap(), expected);
}

/// `SELECT CAST(1 AS INT16) FROM numbers`
#[test]
fn test_cast() {
    let e = Expression {
        rex_type: Some(RexType::Cast(Box::new(Cast {
            typ: Some(Type {
                kind: Some(Kind::I16),
                type_variation_reference: DEFAULT_TYPE_REF,
            }),
            input: Some(Box::new(lit(1))),
        }))),
    };
    let flow_plan = numbers_plan().select(vec![translate(&e).unwrap()]);

    let expected = TypedPlan {
        typ: RelationType::new(vec![ColumnType::new(CDT::Int16, true)]),
        plan: Plan::Mfp {
            input: Box::new(Plan::Get {
                id: Id::Global(GlobalId::User(0)),
            }),
            mfp: MapFilterProject::new(1)
                .map(vec![ScalarExpr::Literal(Value::Int64(1), CDT::Int64)
                    .call_unary(UnaryFunc::Cast(CDT::Int16))])
                .unwrap()
                .project(vec![1])
                .unwrap(),
        },
    };
    assert_eq!(flow_plan.unwrap(), expected);
}

/// `SELECT number+number FROM numbers`
#[test]
fn test_select_add() {
    let e = call(ADD, vec![col(0), col(0)]);
    let flow_plan = numbers_plan().select(vec![translate(&e).unwrap()]);

    let expected = TypedPlan {
        typ: RelationType::new(vec![ColumnType::new(CDT::UInt32, true)]),
        plan: Plan::Mfp {
            input: Box::new(Plan::Get {
                id: Id::Global(GlobalId::User(0)),
            }),
            mfp: MapFilterProject::new(1)
                .map(vec![ScalarExpr::Column(0)
                    .call_binary(ScalarExpr::Column(0), BinaryFunc::Add(CDT::UInt32))])
                .unwrap()
                .project(vec![1])
                .unwrap(),
        },
    };
    assert_eq!(flow_plan.unwrap(), expected);
}

#[test]
fn column_reference_takes_the_schema_type() {
    let t = translate(&col(0)).unwrap();
    assert_eq!(t.expr, ScalarExpr::Column(0));
    assert_eq!(t.typ, ColumnType::new(CDT::UInt32, false));
}

#[test]
fn column_reference_out_of_range_is_reported() {
    assert_eq!(translate(&col(1)), Err(Error::InvalidInput));
    assert_eq!(translate(&col(-1)), Err(Error::InvalidInput));
    assert_eq!(translate(&col(i32::MAX)), Err(Error::InvalidInput));
    let empty = RelationType::new(vec![]);
    assert_eq!(
        TypedExpr::from_substrait_rex(&col(0), &empty, &extensions()),
        Err(Error::InvalidInput)
    );
}

#[test]
fn nested_field_reference_is_unsupported() {
    let nested = Expression {
        rex_type: Some(RexType::Selection(FieldReference::StructField {
            field: 0,
            has_child: true,
        })),
    };
    assert_eq!(translate(&nested), Err(Error::UnsupportedFeature));
    let other = Expression {
        rex_type: Some(RexType::Selection(FieldReference::DirectOther)),
    };
    assert_eq!(translate(&other), Err(Error::UnsupportedFeature));
    let masked = Expression {
        rex_type: Some(RexType::Selection(FieldReference::Other)),
    };
    assert_eq!(translate(&masked), Err(Error::UnsupportedFeature));
}

#[test]
fn window_function_is_unsupported() {
    let empty = Expression {
        rex_type: Some(RexType::WindowFunction(WindowFunction {
            function_reference: 0,
            arguments: vec![],
        })),
    };
    assert_eq!(translate(&empty), Err(Error::UnsupportedFeature));
    let with_args = Expression {
        rex_type: Some(RexType::WindowFunction(WindowFunction {
            function_reference: ADD,
            arguments: vec![FunctionArgument {
                arg_type: Some(ArgType::Value(col(0))),
            }],
        })),
    };
    assert_eq!(translate(&with_args), Err(Error::UnsupportedFeature));
}

#[test]
fn other_node_kinds_are_unsupported() {
    assert_eq!(
        translate(&Expression {
            rex_type: Some(RexType::Other)
        }),
        Err(Error::UnsupportedFeature)
    );
    assert_eq!(
        translate(&Expression { rex_type: None }),
        Err(Error::UnsupportedFeature)
    );
}

#[test]
fn unmapped_function_reference_is_not_found() {
    let e = call(999, vec![col(0), lit(1)]);
    assert_eq!(translate(&e), Err(Error::FunctionReferenceNotFound));
    // the lookup comes before the arguments
    let e = call(999, vec![col(7)]);
    assert_eq!(translate(&e), Err(Error::FunctionReferenceNotFound));
}

#[test]
fn non_value_argument_is_unsupported() {
    let e = Expression {
        rex_type: Some(RexType::ScalarFunction(ScalarFunction {
            function_reference: NOT,
            arguments: vec![FunctionArgument {
                arg_type: Some(ArgType::Other),
            }],
        })),
    };
    assert_eq!(translate(&e), Err(Error::UnsupportedFeature));
    let e = Expression {
        rex_type: Some(RexType::ScalarFunction(ScalarFunction {
            function_reference: NOT,
            arguments: vec![FunctionArgument { arg_type: None }],
        })),
    };
    assert_eq!(translate(&e), Err(Error::UnsupportedFeature));
}

#[test]
fn first_failing_argument_decides() {
    // the first argument is malformed, the second is unsupported
    let e = call(
        ADD,
        vec![
            col(5),
            Expression {
                rex_type: Some(RexType::Other),
            },
        ],
    );
    assert_eq!(translate(&e), Err(Error::InvalidInput));
    let e = call(
        ADD,
        vec![
            Expression {
                rex_type: Some(RexType::Other),
            },
            col(5),
        ],
    );
    assert_eq!(translate(&e), Err(Error::UnsupportedFeature));
}

#[test]
fn unary_call_is_nullable_boolean() {
    let t = translate(&call(NOT, vec![col(0)])).unwrap();
    assert_eq!(t.expr, ScalarExpr::Column(0).call_unary(UnaryFunc::Not));
    assert_eq!(t.typ, ColumnType::new(CDT::Boolean, true));
}

#[test]
fn unknown_function_is_unsupported() {
    assert_eq!(
        translate(&call(UNKNOWN, vec![col(0)])),
        Err(Error::UnsupportedFeature)
    );
    assert_eq!(
        translate(&call(UNKNOWN, vec![col(0), col(0)])),
        Err(Error::UnsupportedFeature)
    );
    assert_eq!(
        translate(&call(UNKNOWN, vec![])),
        Err(Error::UnsupportedFeature)
    );
    // a binary function with three arguments has no form
    assert_eq!(
        translate(&call(ADD, vec![col(0), col(0), col(0)])),
        Err(Error::UnsupportedFeature)
    );
}

#[test]
fn unmaterializable_call() {
    let t = translate(&call(NOW, vec![])).unwrap();
    assert_eq!(
        t.expr,
        ScalarExpr::CallUnmaterializable(flow::expr::func::UnmaterializableFunc::Now)
    );
    assert_eq!(t.typ, ColumnType::new(CDT::DateTime, true));
}

#[test]
fn variadic_wins_over_unary_and_binary_arity() {
    // one argument
    let t = translate(&call(AND, vec![call(GTE, vec![col(0), lit(1)])])).unwrap();
    assert_eq!(
        t.expr,
        ScalarExpr::CallVariadic {
            func: VariadicFunc::And,
            exprs: vec![ScalarExpr::Column(0).call_binary(u32_lit(1), BinaryFunc::Gte)],
        }
    );
    // two arguments
    let t = translate(&call(
        OR,
        vec![
            call(GTE, vec![col(0), lit(1)]),
            call(LTE, vec![col(0), lit(3)]),
        ],
    ))
    .unwrap();
    assert_eq!(
        t.expr,
        ScalarExpr::CallVariadic {
            func: VariadicFunc::Or,
            exprs: vec![
                ScalarExpr::Column(0).call_binary(u32_lit(1), BinaryFunc::Gte),
                ScalarExpr::Column(0).call_binary(u32_lit(3), BinaryFunc::Lte),
            ],
        }
    );
    assert_eq!(t.typ, ColumnType::new(CDT::Boolean, true));
}

#[test]
fn nested_call_of_another_function_is_kept() {
    let inner = call(
        OR,
        vec![
            call(GTE, vec![col(0), lit(1)]),
            call(LTE, vec![col(0), lit(3)]),
        ],
    );
    let t = translate(&call(AND, vec![inner, call(NOT_EQUAL, vec![col(0), lit(2)])])).unwrap();
    assert_eq!(
        t.expr,
        ScalarExpr::CallVariadic {
            func: VariadicFunc::And,
            exprs: vec![
                ScalarExpr::CallVariadic {
                    func: VariadicFunc::Or,
                    exprs: vec![
                        ScalarExpr::Column(0).call_binary(u32_lit(1), BinaryFunc::Gte),
                        ScalarExpr::Column(0).call_binary(u32_lit(3), BinaryFunc::Lte),
                    ],
                },
                ScalarExpr::Column(0).call_binary(u32_lit(2), BinaryFunc::NotEq),
            ],
        }
    );
}

#[test]
fn implicit_cast_out_of_range_is_a_type_error() {
    // -1 is no unsigned 32-bit number
    assert_eq!(
        translate(&call(ADD, vec![col(0), lit(-1)])),
        Err(Error::TypeError)
    );
    assert_eq!(
        translate(&call(GTE, vec![lit(1 << 40), col(0)])),
        Err(Error::TypeError)
    );
}

#[test]
fn folding_reports_evaluation_errors() {
    assert_eq!(
        translate(&call(DIVIDE, vec![lit(1), lit(0)])),
        Err(Error::EvalError)
    );
    assert_eq!(
        translate(&call(MOD, vec![lit(1), lit(0)])),
        Err(Error::EvalError)
    );
    assert_eq!(
        translate(&call(ADD, vec![lit(i64::MAX), lit(1)])),
        Err(Error::EvalError)
    );
    assert_eq!(
        translate(&call(SUBTRACT, vec![lit(i64::MIN), lit(1)])),
        Err(Error::EvalError)
    );
    assert_eq!(
        translate(&call(MULTIPLY, vec![lit(i64::MAX), lit(2)])),
        Err(Error::EvalError)
    );
    assert_eq!(
        translate(&call(DIVIDE, vec![lit(i64::MIN), lit(-1)])),
        Err(Error::EvalError)
    );
}

#[test]
fn folding_gives_exact_values() {
    let t = translate(&call(DIVIDE, vec![lit(-7), lit(2)])).unwrap();
    assert_eq!(t.expr, ScalarExpr::Literal(Value::Int64(-3), CDT::Int64));
    assert_eq!(t.typ, ColumnType::new(CDT::Int64, true));
    let t = translate(&call(MOD, vec![lit(-7), lit(2)])).unwrap();
    assert_eq!(t.expr, ScalarExpr::Literal(Value::Int64(-1), CDT::Int64));
    let t = translate(&call(MOD, vec![lit(7), lit(-2)])).unwrap();
    assert_eq!(t.expr, ScalarExpr::Literal(Value::Int64(1), CDT::Int64));
    let t = translate(&call(MULTIPLY, vec![lit(-3), lit(5)])).unwrap();
    assert_eq!(t.expr, ScalarExpr::Literal(Value::Int64(-15), CDT::Int64));
    let t = translate(&call(GTE, vec![lit(2), lit(3)])).unwrap();
    assert_eq!(
        t.expr,
        ScalarExpr::Literal(Value::Boolean(false), CDT::Boolean)
    );
    assert_eq!(t.typ, ColumnType::new(CDT::Boolean, true));
}

fn if_then(ifs: Vec<(Option<Expression>, Option<Expression>)>, els: Option<Expression>) -> Expression {
    Expression {
        rex_type: Some(RexType::IfThen(Box::new(IfThen {
            ifs: ifs
                .into_iter()
                .map(|(cond, then)| IfClause { cond, then })
                .collect(),
            els: els.map(Box::new),
        }))),
    }
}

#[test]
fn if_then_chain_is_right_nested() {
    let e = if_then(
        vec![
            (Some(call(GTE, vec![col(0), lit(1)])), Some(col(0))),
            (Some(call(LTE, vec![col(0), lit(3)])), Some(lit(7))),
        ],
        Some(lit(9)),
    );
    let t = translate(&e).unwrap();
    let expected = ScalarExpr::If {
        cond: Box::new(ScalarExpr::Column(0).call_binary(u32_lit(1), BinaryFunc::Gte)),
        then: Box::new(ScalarExpr::Column(0)),
        els: Box::new(ScalarExpr::If {
            cond: Box::new(ScalarExpr::Column(0).call_binary(u32_lit(3), BinaryFunc::Lte)),
            then: Box::new(ScalarExpr::Literal(Value::Int64(7), CDT::Int64)),
            els: Box::new(ScalarExpr::Literal(Value::Int64(9), CDT::Int64)),
        }),
    };
    assert_eq!(t.expr, expected);
    // the type is that of the first selected expression
    assert_eq!(t.typ, ColumnType::new(CDT::UInt32, false));
}

#[test]
fn if_then_without_else_ends_in_null() {
    let e = if_then(
        vec![(Some(call(GTE, vec![col(0), lit(1)])), Some(lit(7)))],
        None,
    );
    let t = translate(&e).unwrap();
    let expected = ScalarExpr::If {
        cond: Box::new(ScalarExpr::Column(0).call_binary(u32_lit(1), BinaryFunc::Gte)),
        then: Box::new(ScalarExpr::Literal(Value::Int64(7), CDT::Int64)),
        els: Box::new(ScalarExpr::literal_null()),
    };
    assert_eq!(t.expr, expected);
    assert_eq!(t.typ, ColumnType::new(CDT::Int64, true));

    // no clause at all: the else branch alone
    let t = translate(&if_then(vec![], None)).unwrap();
    assert_eq!(t.expr, ScalarExpr::Literal(Value::Null, CDT::Null));
    assert_eq!(t.typ, ColumnType::new(CDT::Null, true));
}

#[test]
fn if_then_clause_without_parts_is_invalid() {
    assert_eq!(
        translate(&if_then(vec![(None, Some(lit(1)))], None)),
        Err(Error::InvalidInput)
    );
    assert_eq!(
        translate(&if_then(vec![(Some(lit(1)), None)], None)),
        Err(Error::InvalidInput)
    );
    // a missing part is seen before the other part is translated
    assert_eq!(
        translate(&if_then(
            vec![(
                Some(Expression {
                    rex_type: Some(RexType::Other)
                }),
                None
            )],
            None
        )),
        Err(Error::InvalidInput)
    );
    // the clauses come before the else branch
    assert_eq!(
        translate(&if_then(
            vec![(None, Some(lit(1)))],
            Some(Expression {
                rex_type: Some(RexType::Other)
            })
        )),
        Err(Error::InvalidInput)
    );
}

#[test]
fn cast_without_parts_is_invalid() {
    let no_input = Expression {
        rex_type: Some(RexType::Cast(Box::new(Cast {
            typ: Some(Type {
                kind: Some(Kind::I16),
                type_variation_reference: DEFAULT_TYPE_REF,
            }),
            input: None,
        }))),
    };
    assert_eq!(translate(&no_input), Err(Error::InvalidInput));
    let no_type = Expression {
        rex_type: Some(RexType::Cast(Box::new(Cast {
            typ: None,
            input: Some(Box::new(lit(1))),
        }))),
    };
    assert_eq!(translate(&no_type), Err(Error::InvalidInput));
    let bad_type = Expression {
        rex_type: Some(RexType::Cast(Box::new(Cast {
            typ: Some(Type {
                kind: Some(Kind::Other),
                type_variation_reference: DEFAULT_TYPE_REF,
            }),
            input: Some(Box::new(lit(1))),
        }))),
    };
    assert_eq!(translate(&bad_type), Err(Error::UnsupportedFeature));
}

#[test]
fn cast_to_unsigned_type() {
    let e = Expression {
        rex_type: Some(RexType::Cast(Box::new(Cast {
            typ: Some(Type {
                kind: Some(Kind::I64),
                type_variation_reference: UNSIGNED_INTEGER_TYPE_REF,
            }),
            input: Some(Box::new(col(0))),
        }))),
    };
    let t = translate(&e).unwrap();
    assert_eq!(
        t.expr,
        ScalarExpr::Column(0).call_unary(UnaryFunc::Cast(CDT::UInt64))
    );
    assert_eq!(t.typ, ColumnType::new(CDT::UInt64, true));
}

#[test]
fn singular_or_list() {
    let value_only = Expression {
        rex_type: Some(RexType::SingularOrList(Box::new(SingularOrList {
            value: Some(Box::new(col(0))),
            options: vec![],
        }))),
    };
    assert_eq!(translate(&value_only).unwrap().expr, ScalarExpr::Column(0));
    let in_list = Expression {
        rex_type: Some(RexType::SingularOrList(Box::new(SingularOrList {
            value: Some(Box::new(col(0))),
            options: vec![lit(1)],
        }))),
    };
    assert_eq!(translate(&in_list), Err(Error::UnsupportedFeature));
    let no_value = Expression {
        rex_type: Some(RexType::SingularOrList(Box::new(SingularOrList {
            value: None,
            options: vec![lit(1)],
        }))),
    };
    assert_eq!(translate(&no_value), Err(Error::InvalidInput));
}

#[test]
fn translation_is_deterministic() {
    let e = call(ADD, vec![col(0), lit(1)]);
    assert_eq!(translate(&e), translate(&e));
}

#[test]
fn long_conjunction_chain_is_flat() {
    let members = vec![
        call(GTE, vec![col(0), lit(1)]),
        call(LTE, vec![col(0), lit(9)]),
        call(NOT_EQUAL, vec![col(0), lit(2)]),
        call(NOT_EQUAL, vec![col(0), lit(3)]),
        call(NOT_EQUAL, vec![col(0), lit(4)]),
    ];
    let mut chain: Option<Expression> = None;
    for m in members {
        chain = Some(match chain {
            None => m,
            Some(c) => call(AND, vec![c, m]),
        });
    }
    let t = translate(&chain.unwrap()).unwrap();
    assert_eq!(
        t.expr,
        ScalarExpr::CallVariadic {
            func: VariadicFunc::And,
            exprs: vec![
                ScalarExpr::Column(0).call_binary(u32_lit(1), BinaryFunc::Gte),
                ScalarExpr::Column(0).call_binary(u32_lit(9), BinaryFunc::Lte),
                ScalarExpr::Column(0).call_binary(u32_lit(2), BinaryFunc::NotEq),
                ScalarExpr::Column(0).call_binary(u32_lit(3), BinaryFunc::NotEq),
                ScalarExpr::Column(0).call_binary(u32_lit(4), BinaryFunc::NotEq),
            ],
        }
    );
    assert_eq!(t.typ, ColumnType::new(CDT::Boolean, true));
}

#[test]
fn literal_with_column_in_either_order() {
    let t = translate(&call(SUBTRACT, vec![lit(5), col(0)])).unwrap();
    assert_eq!(
        t.expr,
        u32_lit(5).call_binary(ScalarExpr::Column(0), BinaryFunc::Sub(CDT::UInt32))
    );
    assert_eq!(t.typ, ColumnType::new(CDT::UInt32, true));
}

#[test]
fn copies_are_equal() {
    let e = if_then(
        vec![(Some(call(GTE, vec![col(0), lit(1)])), Some(col(0)))],
        Some(Expression {
            rex_type: Some(RexType::SingularOrList(Box::new(SingularOrList {
                value: Some(Box::new(lit(3))),
                options: vec![lit(4)],
            }))),
        }),
    );
    assert_eq!(e.clone(), e);
    assert_eq!(e.duplicate(), e);
    let plan = numbers_plan()
        .filter(translate(&call(GTE, vec![col(0), lit(1)])).unwrap())
        .unwrap();
    assert_eq!(plan.clone(), plan);
    let constant = numbers_plan()
        .select(vec![translate(&lit(1)).unwrap()])
        .unwrap();
    assert_eq!(constant.clone(), constant);
    assert_eq!(numbers().clone(), numbers());
}
