use flow::datatypes::{cast, ConcreteDataType as CDT, Value};
use flow::error::Error;
use flow::expr::eval::{order_bytes, order_values, values_equal};
use flow::expr::func::{
    resolve, BinaryFunc, GenericFn, ResolvedFunction, Signature, UnaryFunc, UnmaterializableFunc,
    VariadicFunc,
};
use flow::expr::scalar::{ScalarExpr, TypedExpr};
use flow::proto::{Kind, Literal, LiteralType, Type, DEFAULT_TYPE_REF, UNSIGNED_INTEGER_TYPE_REF};
use flow::repr::ColumnType;
use flow::transform::expr::fold_output;
use flow::transform::literal::{from_substrait_literal, from_substrait_type};

fn column() -> ScalarExpr {
    ScalarExpr::Column(0)
}

fn i64_lit(n: i64) -> ScalarExpr {
    ScalarExpr::Literal(Value::Int64(n), CDT::Int64)
}

#[test]
fn error_names() {
    assert_eq!(Error::FunctionReferenceNotFound.name(), "function reference not found");
    assert_eq!(Error::UnsupportedFeature.name(), "unsupported feature");
    assert_eq!(Error::InvalidInput.name(), "invalid input");
    assert_eq!(Error::TypeError.name(), "type error");
    assert_eq!(Error::EvalError.name(), "evaluation error");
    assert_eq!(Error::InvalidPlan.name(), "invalid plan");
}

#[test]
fn unary_names() {
    assert_eq!(UnaryFunc::from_str_and_type("not", None), Ok(UnaryFunc::Not));
    assert_eq!(UnaryFunc::from_str_and_type("is_null", None), Ok(UnaryFunc::IsNull));
    assert_eq!(UnaryFunc::from_str_and_type("is_true", None), Ok(UnaryFunc::IsTrue));
    assert_eq!(UnaryFunc::from_str_and_type("is_false", None), Ok(UnaryFunc::IsFalse));
    assert_eq!(
        UnaryFunc::from_str_and_type("step_timestamp", None),
        Ok(UnaryFunc::StepTimestamp)
    );
    assert_eq!(
        UnaryFunc::from_str_and_type("cast", Some(CDT::Int16)),
        Ok(UnaryFunc::Cast(CDT::Int16))
    );
    assert_eq!(
        UnaryFunc::from_str_and_type("cast", None),
        Err(Error::UnsupportedFeature)
    );
    assert_eq!(
        UnaryFunc::from_str_and_type("and", None),
        Err(Error::UnsupportedFeature)
    );
    assert_eq!(
        UnaryFunc::from_str_and_type("", None),
        Err(Error::UnsupportedFeature)
    );
}

#[test]
fn variadic_and_unmaterializable_names() {
    assert_eq!(VariadicFunc::from_str_and_types("and", &vec![]), Ok(VariadicFunc::And));
    assert_eq!(
        VariadicFunc::from_str_and_types("or", &vec![None, Some(CDT::Boolean)]),
        Ok(VariadicFunc::Or)
    );
    assert_eq!(
        VariadicFunc::from_str_and_types("not", &vec![]),
        Err(Error::UnsupportedFeature)
    );
    assert_eq!(UnmaterializableFunc::from_str("now"), Ok(UnmaterializableFunc::Now));
    assert_eq!(
        UnmaterializableFunc::from_str("current_schema"),
        Ok(UnmaterializableFunc::CurrentSchema)
    );
    assert_eq!(
        UnmaterializableFunc::from_str("Now"),
        Err(Error::UnsupportedFeature)
    );
}

#[test]
fn signatures() {
    assert_eq!(
        UnaryFunc::Cast(CDT::Int16).signature(),
        Signature {
            input: vec![CDT::Null],
            output: CDT::Int16,
            generic_fn: GenericFn::Cast
        }
    );
    assert_eq!(
        UnaryFunc::Not.signature(),
        Signature {
            input: vec![CDT::Boolean],
            output: CDT::Boolean,
            generic_fn: GenericFn::Not
        }
    );
    assert_eq!(
        UnaryFunc::StepTimestamp.signature(),
        Signature {
            input: vec![CDT::DateTime],
            output: CDT::DateTime,
            generic_fn: GenericFn::StepTimestamp
        }
    );
    assert_eq!(
        BinaryFunc::Gte.signature(),
        Signature {
            input: vec![CDT::Null, CDT::Null],
            output: CDT::Boolean,
            generic_fn: GenericFn::Gte
        }
    );
    assert_eq!(
        BinaryFunc::Mul(CDT::UInt8).signature(),
        Signature {
            input: vec![CDT::UInt8, CDT::UInt8],
            output: CDT::UInt8,
            generic_fn: GenericFn::Mul
        }
    );
    assert_eq!(
        VariadicFunc::Or.signature(),
        Signature {
            input: vec![CDT::Boolean],
            output: CDT::Boolean,
            generic_fn: GenericFn::Or
        }
    );
    assert_eq!(
        UnmaterializableFunc::Now.signature(),
        Signature {
            input: vec![],
            output: CDT::DateTime,
            generic_fn: GenericFn::Now
        }
    );
    assert_eq!(
        UnmaterializableFunc::CurrentSchema.signature(),
        Signature {
            input: vec![],
            output: CDT::String,
            generic_fn: GenericFn::CurrentSchema
        }
    );
}

#[test]
fn specialization() {
    assert_eq!(BinaryFunc::specialization(GenericFn::Eq, CDT::Null), Ok(BinaryFunc::Eq));
    assert_eq!(
        BinaryFunc::specialization(GenericFn::Eq, CDT::Int32),
        Err(Error::UnsupportedFeature)
    );
    assert_eq!(
        BinaryFunc::specialization(GenericFn::Add, CDT::Int32),
        Ok(BinaryFunc::Add(CDT::Int32))
    );
    assert_eq!(
        BinaryFunc::specialization(GenericFn::Mod, CDT::UInt64),
        Ok(BinaryFunc::Mod(CDT::UInt64))
    );
    assert_eq!(
        BinaryFunc::specialization(GenericFn::Add, CDT::Boolean),
        Err(Error::UnsupportedFeature)
    );
    assert_eq!(
        BinaryFunc::specialization(GenericFn::Add, CDT::Null),
        Err(Error::UnsupportedFeature)
    );
    assert_eq!(
        BinaryFunc::specialization(GenericFn::And, CDT::Boolean),
        Err(Error::UnsupportedFeature)
    );
}

#[test]
fn binary_resolution() {
    // one declared type decides
    let (f, sig) =
        BinaryFunc::from_str_expr_and_type("add", &vec![column(), i64_lit(1)], &vec![Some(CDT::UInt32), None])
            .unwrap();
    assert_eq!(f, BinaryFunc::Add(CDT::UInt32));
    assert_eq!(
        sig,
        Signature {
            input: vec![CDT::UInt32, CDT::UInt32],
            output: CDT::UInt32,
            generic_fn: GenericFn::Add
        }
    );
    // a comparison has the operand types in its signature
    let (f, sig) =
        BinaryFunc::from_str_expr_and_type("lt", &vec![i64_lit(1), column()], &vec![None, Some(CDT::Int8)])
            .unwrap();
    assert_eq!(f, BinaryFunc::Lt);
    assert_eq!(
        sig,
        Signature {
            input: vec![CDT::Int8, CDT::Int8],
            output: CDT::Boolean,
            generic_fn: GenericFn::Lt
        }
    );
    // no declared type: the first literal decides
    let (f, _) = BinaryFunc::from_str_expr_and_type(
        "multiply",
        &vec![ScalarExpr::Literal(Value::UInt8(1), CDT::UInt8), i64_lit(1)],
        &vec![None, None],
    )
    .unwrap();
    assert_eq!(f, BinaryFunc::Mul(CDT::UInt8));
    // two declared types must agree
    assert_eq!(
        BinaryFunc::from_str_expr_and_type(
            "add",
            &vec![column(), column()],
            &vec![Some(CDT::UInt32), Some(CDT::Int32)]
        ),
        Err(Error::UnsupportedFeature)
    );
    // nothing to infer from
    assert_eq!(
        BinaryFunc::from_str_expr_and_type("add", &vec![column(), column()], &vec![None, None]),
        Err(Error::UnsupportedFeature)
    );
    // not two arguments
    assert_eq!(
        BinaryFunc::from_str_expr_and_type("add", &vec![column()], &vec![Some(CDT::UInt32)]),
        Err(Error::UnsupportedFeature)
    );
    // no binary function
    assert_eq!(
        BinaryFunc::from_str_expr_and_type("not", &vec![column(), i64_lit(1)], &vec![Some(CDT::UInt32), None]),
        Err(Error::UnsupportedFeature)
    );
    for (name, f) in [
        ("equal", BinaryFunc::Eq),
        ("not_equal", BinaryFunc::NotEq),
        ("lt", BinaryFunc::Lt),
        ("lte", BinaryFunc::Lte),
        ("gt", BinaryFunc::Gt),
        ("gte", BinaryFunc::Gte),
        ("add", BinaryFunc::Add(CDT::Int64)),
        ("subtract", BinaryFunc::Sub(CDT::Int64)),
        ("multiply", BinaryFunc::Mul(CDT::Int64)),
        ("divide", BinaryFunc::Div(CDT::Int64)),
        ("mod", BinaryFunc::Mod(CDT::Int64)),
    ] {
        let (got, _) =
            BinaryFunc::from_str_expr_and_type(name, &vec![i64_lit(1), i64_lit(2)], &vec![None, None]).unwrap();
        assert_eq!(got, f);
    }
}

#[test]
fn infer_type() {
    assert_eq!(
        BinaryFunc::infer_type_from(&vec![column(), i64_lit(1)], &vec![None, None]),
        Ok(CDT::Int64)
    );
    assert_eq!(
        BinaryFunc::infer_type_from(&vec![i64_lit(1), column()], &vec![None, Some(CDT::Date)]),
        Ok(CDT::Date)
    );
}

#[test]
fn resolution_order() {
    let one = vec![column()];
    let one_t = vec![Some(CDT::Boolean)];
    let two = vec![column(), column()];
    let two_t = vec![Some(CDT::UInt32), Some(CDT::UInt32)];
    assert_eq!(
        resolve("and", &one, &one_t),
        Ok(ResolvedFunction::Variadic(VariadicFunc::And))
    );
    assert_eq!(
        resolve("not", &one, &one_t),
        Ok(ResolvedFunction::Unary(UnaryFunc::Not))
    );
    assert_eq!(
        resolve("or", &two, &two_t),
        Ok(ResolvedFunction::Variadic(VariadicFunc::Or))
    );
    assert_eq!(
        resolve("add", &two, &two_t),
        Ok(ResolvedFunction::Binary(
            BinaryFunc::Add(CDT::UInt32),
            Signature {
                input: vec![CDT::UInt32, CDT::UInt32],
                output: CDT::UInt32,
                generic_fn: GenericFn::Add
            }
        ))
    );
    assert_eq!(
        resolve("now", &vec![], &vec![]),
        Ok(ResolvedFunction::Unmaterializable(UnmaterializableFunc::Now))
    );
    assert_eq!(
        resolve("and", &vec![], &vec![]),
        Ok(ResolvedFunction::Variadic(VariadicFunc::And))
    );
    // with one or two arguments the context-dependent form is not tried
    assert_eq!(resolve("now", &one, &one_t), Err(Error::UnsupportedFeature));
    assert_eq!(resolve("now", &two, &two_t), Err(Error::UnsupportedFeature));
    assert_eq!(resolve("not", &two, &two_t), Err(Error::UnsupportedFeature));
    assert_eq!(resolve("add", &one, &one_t), Err(Error::UnsupportedFeature));
    assert_eq!(resolve("add", &vec![], &vec![]), Err(Error::UnsupportedFeature));
}

#[test]
fn evaluation() {
    let add = BinaryFunc::Add(CDT::UInt8);
    assert_eq!(add.eval(&Value::UInt8(200), &Value::UInt8(55)), Ok(Value::UInt8(255)));
    assert_eq!(add.eval(&Value::UInt8(200), &Value::UInt8(56)), Err(Error::EvalError));
    assert_eq!(add.eval(&Value::UInt8(1), &Value::Int8(1)), Err(Error::EvalError));
    assert_eq!(add.eval(&Value::Int64(1), &Value::Int64(1)), Err(Error::EvalError));
    assert_eq!(add.eval(&Value::Null, &Value::UInt8(1)), Err(Error::EvalError));
    let sub = BinaryFunc::Sub(CDT::UInt16);
    assert_eq!(sub.eval(&Value::UInt16(3), &Value::UInt16(3)), Ok(Value::UInt16(0)));
    assert_eq!(sub.eval(&Value::UInt16(3), &Value::UInt16(4)), Err(Error::EvalError));
    let mul = BinaryFunc::Mul(CDT::UInt64);
    assert_eq!(
        mul.eval(&Value::UInt64(1 << 32), &Value::UInt64((1 << 32) - 1)),
        Ok(Value::UInt64(((1u64 << 32) - 1) << 32))
    );
    assert_eq!(
        mul.eval(&Value::UInt64(u64::MAX), &Value::UInt64(u64::MAX)),
        Err(Error::EvalError)
    );
    let div = BinaryFunc::Div(CDT::Int8);
    assert_eq!(div.eval(&Value::Int8(-7), &Value::Int8(2)), Ok(Value::Int8(-3)));
    assert_eq!(div.eval(&Value::Int8(7), &Value::Int8(-2)), Ok(Value::Int8(-3)));
    assert_eq!(div.eval(&Value::Int8(-7), &Value::Int8(-2)), Ok(Value::Int8(3)));
    assert_eq!(div.eval(&Value::Int8(-128), &Value::Int8(-1)), Err(Error::EvalError));
    assert_eq!(div.eval(&Value::Int8(1), &Value::Int8(0)), Err(Error::EvalError));
    let rem = BinaryFunc::Mod(CDT::Int32);
    assert_eq!(rem.eval(&Value::Int32(-7), &Value::Int32(2)), Ok(Value::Int32(-1)));
    assert_eq!(rem.eval(&Value::Int32(7), &Value::Int32(-2)), Ok(Value::Int32(1)));
    assert_eq!(rem.eval(&Value::Int32(-7), &Value::Int32(-2)), Ok(Value::Int32(-1)));
    assert_eq!(rem.eval(&Value::Int32(i32::MIN), &Value::Int32(-1)), Ok(Value::Int32(0)));
    assert_eq!(rem.eval(&Value::Int32(7), &Value::Int32(0)), Err(Error::EvalError));
}

#[test]
fn comparison() {
    let s = |t: &str| Value::String(t.to_string());
    assert_eq!(BinaryFunc::Eq.eval(&s("a"), &s("a")), Ok(Value::Boolean(true)));
    assert_eq!(BinaryFunc::Eq.eval(&s("a"), &s("b")), Ok(Value::Boolean(false)));
    assert_eq!(BinaryFunc::NotEq.eval(&s("a"), &s("b")), Ok(Value::Boolean(true)));
    assert_eq!(
        BinaryFunc::Eq.eval(&Value::Int8(1), &Value::Int16(1)),
        Ok(Value::Boolean(false))
    );
    assert_eq!(BinaryFunc::Eq.eval(&Value::Null, &Value::Null), Ok(Value::Boolean(true)));
    assert_eq!(BinaryFunc::Lt.eval(&s("ab"), &s("b")), Ok(Value::Boolean(true)));
    assert_eq!(BinaryFunc::Lt.eval(&s("ab"), &s("a")), Ok(Value::Boolean(false)));
    assert_eq!(BinaryFunc::Lte.eval(&s("ab"), &s("ab")), Ok(Value::Boolean(true)));
    assert_eq!(BinaryFunc::Gt.eval(&s("é"), &s("z")), Ok(Value::Boolean(true)));
    assert_eq!(
        BinaryFunc::Gte.eval(&Value::Boolean(false), &Value::Boolean(true)),
        Ok(Value::Boolean(false))
    );
    assert_eq!(
        BinaryFunc::Lt.eval(&Value::Date(-1), &Value::Date(0)),
        Ok(Value::Boolean(true))
    );
    assert_eq!(
        BinaryFunc::Gt.eval(&Value::DateTime(5), &Value::DateTime(5)),
        Ok(Value::Boolean(false))
    );
    assert_eq!(
        BinaryFunc::Lt.eval(&Value::Int8(1), &Value::Int16(2)),
        Err(Error::EvalError)
    );
    assert_eq!(
        BinaryFunc::Lt.eval(&Value::Null, &Value::Int16(2)),
        Err(Error::EvalError)
    );
    assert_eq!(order_values(&Value::UInt64(u64::MAX), &Value::UInt64(0)), Some(1));
    assert_eq!(order_values(&Value::Int64(i64::MIN), &Value::Int64(0)), Some(-1));
    assert_eq!(order_values(&Value::Null, &Value::Null), Some(0));
    assert_eq!(order_values(&Value::Date(0), &Value::DateTime(0)), None);
    assert_eq!(order_bytes(b"", b""), 0);
    assert_eq!(order_bytes(b"", b"a"), -1);
    assert_eq!(order_bytes(b"a", b""), 1);
    assert_eq!(order_bytes(b"abc", b"abd"), -1);
    assert_eq!(order_bytes(b"abc", b"ab"), 1);
    assert!(values_equal(&s("x"), &s("x")));
    assert!(!values_equal(&s("x"), &s("y")));
    assert!(!values_equal(&Value::Date(1), &Value::Int32(1)));
}

#[test]
fn casts() {
    assert_eq!(cast(Value::Int64(1), &CDT::UInt32), Ok(Value::UInt32(1)));
    assert_eq!(cast(Value::Int64(-1), &CDT::UInt32), Err(Error::TypeError));
    assert_eq!(cast(Value::Int64(255), &CDT::UInt8), Ok(Value::UInt8(255)));
    assert_eq!(cast(Value::Int64(256), &CDT::UInt8), Err(Error::TypeError));
    assert_eq!(cast(Value::UInt64(u64::MAX), &CDT::Int64), Err(Error::TypeError));
    assert_eq!(cast(Value::Int8(-128), &CDT::Int64), Ok(Value::Int64(-128)));
    assert_eq!(cast(Value::Null, &CDT::String), Ok(Value::Null));
    assert_eq!(
        cast(Value::String("1".to_string()), &CDT::String),
        Ok(Value::String("1".to_string()))
    );
    assert_eq!(cast(Value::String("1".to_string()), &CDT::Int8), Err(Error::TypeError));
    assert_eq!(cast(Value::Boolean(true), &CDT::Int8), Ok(Value::Int8(1)));
    assert_eq!(cast(Value::Boolean(false), &CDT::UInt64), Ok(Value::UInt64(0)));
    assert_eq!(cast(Value::Boolean(true), &CDT::String), Err(Error::TypeError));
    assert_eq!(cast(Value::Int32(0), &CDT::Boolean), Ok(Value::Boolean(false)));
    assert_eq!(cast(Value::Int32(-5), &CDT::Boolean), Ok(Value::Boolean(true)));
    assert_eq!(cast(Value::Int32(1), &CDT::Date), Err(Error::TypeError));
    assert_eq!(cast(Value::Date(1), &CDT::Int32), Err(Error::TypeError));
    assert_eq!(cast(Value::Int32(1), &CDT::Null), Err(Error::TypeError));
}

#[test]
fn values() {
    assert_eq!(Value::UInt16(7).data_type(), CDT::UInt16);
    assert_eq!(Value::Null.data_type(), CDT::Null);
    assert_eq!(Value::String(String::new()).data_type(), CDT::String);
    assert!(Value::Null.is_null());
    assert!(!Value::Boolean(false).is_null());
    assert_eq!(Value::UInt64(u64::MAX).as_integer(), Some(u64::MAX as i128));
    assert_eq!(Value::Int8(-1).as_integer(), Some(-1));
    assert_eq!(Value::Date(1).as_integer(), None);
    assert_eq!(Value::from_integer(CDT::Int8, -128), Some(Value::Int8(-128)));
    assert_eq!(Value::from_integer(CDT::Int8, -129), None);
    assert_eq!(Value::from_integer(CDT::UInt64, u64::MAX as i128), Some(Value::UInt64(u64::MAX)));
    assert_eq!(Value::from_integer(CDT::UInt64, u64::MAX as i128 + 1), None);
    assert_eq!(Value::from_integer(CDT::Boolean, 1), None);
    assert_eq!(Value::Int64(3).clone(), Value::Int64(3));
    assert!(CDT::Null.is_null());
    assert!(!CDT::Boolean.is_null());
    assert!(CDT::UInt8.is_integer_type());
    assert!(!CDT::Date.is_integer_type());
}

fn literal(literal_type: LiteralType, variation: u32) -> Literal {
    Literal {
        literal_type: Some(literal_type),
        type_variation_reference: variation,
    }
}

#[test]
fn literal_decoding() {
    assert_eq!(
        from_substrait_literal(&literal(LiteralType::Boolean(true), DEFAULT_TYPE_REF)),
        Ok((Value::Boolean(true), CDT::Boolean))
    );
    assert_eq!(
        from_substrait_literal(&literal(LiteralType::I8(-1), DEFAULT_TYPE_REF)),
        Ok((Value::Int8(-1), CDT::Int8))
    );
    assert_eq!(
        from_substrait_literal(&literal(LiteralType::I8(255), UNSIGNED_INTEGER_TYPE_REF)),
        Ok((Value::UInt8(255), CDT::UInt8))
    );
    // a carried number outside the range is reduced into it
    assert_eq!(
        from_substrait_literal(&literal(LiteralType::I8(255), DEFAULT_TYPE_REF)),
        Ok((Value::Int8(-1), CDT::Int8))
    );
    assert_eq!(
        from_substrait_literal(&literal(LiteralType::I8(-1), UNSIGNED_INTEGER_TYPE_REF)),
        Ok((Value::UInt8(255), CDT::UInt8))
    );
    assert_eq!(
        from_substrait_literal(&literal(LiteralType::I16(-2), UNSIGNED_INTEGER_TYPE_REF)),
        Ok((Value::UInt16(65534), CDT::UInt16))
    );
    assert_eq!(
        from_substrait_literal(&literal(LiteralType::I32(-1), UNSIGNED_INTEGER_TYPE_REF)),
        Ok((Value::UInt32(u32::MAX), CDT::UInt32))
    );
    assert_eq!(
        from_substrait_literal(&literal(LiteralType::I32(i32::MIN), DEFAULT_TYPE_REF)),
        Ok((Value::Int32(i32::MIN), CDT::Int32))
    );
    assert_eq!(
        from_substrait_literal(&literal(LiteralType::I64(-1), UNSIGNED_INTEGER_TYPE_REF)),
        Ok((Value::UInt64(u64::MAX), CDT::UInt64))
    );
    assert_eq!(
        from_substrait_literal(&literal(LiteralType::I64(i64::MAX), DEFAULT_TYPE_REF)),
        Ok((Value::Int64(i64::MAX), CDT::Int64))
    );
    assert_eq!(
        from_substrait_literal(&literal(LiteralType::I64(1), 2)),
        Err(Error::UnsupportedFeature)
    );
    assert_eq!(
        from_substrait_literal(&literal(LiteralType::String("hi".to_string()), DEFAULT_TYPE_REF)),
        Ok((Value::String("hi".to_string()), CDT::String))
    );
    assert_eq!(
        from_substrait_literal(&literal(LiteralType::Date(-3), DEFAULT_TYPE_REF)),
        Ok((Value::Date(-3), CDT::Date))
    );
    assert_eq!(
        from_substrait_literal(&literal(
            LiteralType::Null(Type {
                kind: Some(Kind::I32),
                type_variation_reference: UNSIGNED_INTEGER_TYPE_REF
            }),
            DEFAULT_TYPE_REF
        )),
        Ok((Value::Null, CDT::UInt32))
    );
    assert_eq!(
        from_substrait_literal(&literal(
            LiteralType::Null(Type {
                kind: None,
                type_variation_reference: DEFAULT_TYPE_REF
            }),
            DEFAULT_TYPE_REF
        )),
        Err(Error::UnsupportedFeature)
    );
    assert_eq!(
        from_substrait_literal(&literal(LiteralType::Other, DEFAULT_TYPE_REF)),
        Err(Error::UnsupportedFeature)
    );
    assert_eq!(
        from_substrait_literal(&Literal {
            literal_type: None,
            type_variation_reference: DEFAULT_TYPE_REF
        }),
        Err(Error::UnsupportedFeature)
    );
}

#[test]
fn type_decoding() {
    let t = |kind, variation| Type {
        kind: Some(kind),
        type_variation_reference: variation,
    };
    assert_eq!(from_substrait_type(&t(Kind::Bool, 0)), Ok(CDT::Boolean));
    assert_eq!(from_substrait_type(&t(Kind::I8, 0)), Ok(CDT::Int8));
    assert_eq!(from_substrait_type(&t(Kind::I8, 1)), Ok(CDT::UInt8));
    assert_eq!(from_substrait_type(&t(Kind::I16, 0)), Ok(CDT::Int16));
    assert_eq!(from_substrait_type(&t(Kind::I16, 1)), Ok(CDT::UInt16));
    assert_eq!(from_substrait_type(&t(Kind::I32, 0)), Ok(CDT::Int32));
    assert_eq!(from_substrait_type(&t(Kind::I32, 1)), Ok(CDT::UInt32));
    assert_eq!(from_substrait_type(&t(Kind::I64, 0)), Ok(CDT::Int64));
    assert_eq!(from_substrait_type(&t(Kind::I64, 1)), Ok(CDT::UInt64));
    assert_eq!(from_substrait_type(&t(Kind::I64, 2)), Err(Error::UnsupportedFeature));
    assert_eq!(from_substrait_type(&t(Kind::String, 0)), Ok(CDT::String));
    assert_eq!(from_substrait_type(&t(Kind::Date, 0)), Ok(CDT::Date));
    assert_eq!(from_substrait_type(&t(Kind::Other, 0)), Err(Error::UnsupportedFeature));
    assert_eq!(
        from_substrait_type(&Type {
            kind: None,
            type_variation_reference: 0
        }),
        Err(Error::UnsupportedFeature)
    );
}

#[test]
fn fold_output_type_rule() {
    let sig = |input: Vec<CDT>, output| Signature {
        input,
        output,
        generic_fn: GenericFn::Add,
    };
    assert_eq!(fold_output(&sig(vec![CDT::Int8, CDT::Int16], CDT::Int32)), CDT::Int32);
    // an untyped output takes the first input type that is typed
    assert_eq!(fold_output(&sig(vec![CDT::Int8, CDT::Int16], CDT::Null)), CDT::Int8);
    assert_eq!(fold_output(&sig(vec![CDT::Null, CDT::Int16], CDT::Null)), CDT::Int16);
    assert_eq!(fold_output(&sig(vec![CDT::Null, CDT::Null], CDT::Null)), CDT::Null);
    assert_eq!(fold_output(&sig(vec![CDT::Null], CDT::Null)), CDT::Null);
    assert_eq!(fold_output(&sig(vec![], CDT::Null)), CDT::Null);
}

#[test]
fn call_function_on_translated_arguments() {
    let column = TypedExpr::new(column(), ColumnType::new(CDT::Int8, false));
    let five = TypedExpr::new(i64_lit(5), ColumnType::new_nullable(CDT::Int64));
    let got = TypedExpr::call_function("subtract", vec![five, column]).unwrap();
    assert_eq!(
        got.expr,
        ScalarExpr::Literal(Value::Int8(5), CDT::Int8)
            .call_binary(ScalarExpr::Column(0), BinaryFunc::Sub(CDT::Int8))
    );
    assert_eq!(got.typ, ColumnType::new(CDT::Int8, true));

    // a column of the untyped type leaves the literal as it is
    let untyped = TypedExpr::new(ScalarExpr::Column(0), ColumnType::new(CDT::Null, true));
    let five = TypedExpr::new(i64_lit(5), ColumnType::new_nullable(CDT::Int64));
    let got = TypedExpr::call_function("equal", vec![untyped, five]).unwrap();
    assert_eq!(
        got.expr,
        ScalarExpr::Column(0).call_binary(i64_lit(5), BinaryFunc::Eq)
    );
}
