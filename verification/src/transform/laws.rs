//! Laws of translation: what holds of every input.

use vstd::prelude::*;
use crate::datatypes::ConcreteDataType;
use crate::datatypes::SpecValue;
use crate::datatypes::spec_cast;
use crate::error::Error;
use crate::expr::func::BinaryFunc;
use crate::expr::func::SpecResolved;
use crate::expr::func::UnaryFunc;
use crate::expr::func::VariadicFunc;
use crate::expr::func::spec_resolve;
use crate::expr::scalar::flat_args;
use crate::expr::scalar::SpecExpr;
use crate::expr::scalar::SpecTypedExpr;
use crate::plan::SpecPlan;
use crate::plan::SpecTypedPlan;
use crate::plan::TIMESTAMP_MIN;
use crate::proto::FieldReference;
use crate::proto::SpecArgType;
use crate::proto::SpecCast;
use crate::proto::SpecExpression;
use crate::proto::SpecFunctionArgument;
use crate::proto::SpecIfClause;
use crate::proto::SpecIfThen;
use crate::proto::SpecRexType;
use crate::proto::SpecScalarFunction;
use crate::repr::ColumnType;
use crate::transform::expr::build_if_then;
use crate::transform::expr::cast_literal;
use crate::transform::expr::declared_types;
use crate::expr::scalar::exprs_of;
use crate::transform::expr::null_branch;
use crate::transform::expr::spec_args;
use crate::transform::expr::spec_call_function;
use crate::transform::expr::spec_cast_rex;
use crate::transform::expr::spec_clauses;
use crate::transform::expr::spec_ifthen;
use crate::transform::expr::spec_rex;
use crate::transform::expr::spec_scalar_func;
use crate::transform::expr::spec_selection;
use crate::transform::literal::spec_from_type;

verus! {

/// Translation of a window function fails with `UnsupportedFeature`,
/// whatever the node holds and whatever the schema and the extensions are.
pub proof fn law_window_function_unsupported(
    e: SpecExpression,
    schema: Seq<ColumnType>,
    ext: Map<u32, Seq<char>>,
)
    requires
        e.rex_type matches Some(SpecRexType::WindowFunction(_)),
    ensures
        spec_rex(e, schema, ext) == Err::<SpecTypedExpr, Error>(Error::UnsupportedFeature),
{
}

/// A direct reference to a struct field without nested segment translates
/// exactly where its ordinal is below the length of the schema, to the
/// column of that ordinal with the type the schema has for it; every other
/// ordinal fails with `InvalidInput`.
pub proof fn law_column_reference_bounds(field: i32, schema: Seq<ColumnType>)
    ensures
        0 <= field < schema.len() ==> spec_selection(
            FieldReference::StructField { field, has_child: false },
            schema,
        ) == Ok::<SpecTypedExpr, Error>(
            SpecTypedExpr { expr: SpecExpr::Column(field as nat), typ: schema[field as int] },
        ),
        !(0 <= field < schema.len()) ==> spec_selection(
            FieldReference::StructField { field, has_child: false },
            schema,
        ) == Err::<SpecTypedExpr, Error>(Error::InvalidInput),
{
}

/// Flattening keeps the column bound of the arguments.
proof fn lemma_flat_args_columns(func: VariadicFunc, exprs: Seq<SpecExpr>, n: nat)
    requires
        forall|i: int| 0 <= i < exprs.len() ==> (#[trigger] exprs[i]).columns_below(n),
    ensures
        forall|i: int|
            0 <= i < flat_args(func, exprs).len() ==> (#[trigger] flat_args(
                func,
                exprs,
            )[i]).columns_below(n),
    decreases exprs,
{
    if exprs.len() > 0 {
        let front = exprs.subrange(0, exprs.len() - 1);
        let rest = flat_args(func, front);
        let last = exprs[exprs.len() - 1];
        assert forall|i: int| 0 <= i < front.len() implies (#[trigger] front[i]).columns_below(
            n,
        ) by {
            assert(front[i] == exprs[i]);
        }
        lemma_flat_args_columns(func, front, n);
        let out = flat_args(func, exprs);
        assert(last.columns_below(n));
        match last {
            SpecExpr::CallVariadic { func: inner_func, exprs: inner } => {
                if inner_func == func {
                    lemma_flat_args_columns(func, inner, n);
                    let tail = flat_args(func, inner);
                    assert(out == rest + tail);
                    assert forall|i: int| 0 <= i < out.len() implies (#[trigger] out[i]).columns_below(
                        n,
                    ) by {
                        if i < rest.len() {
                            assert(out[i] == rest[i]);
                        } else {
                            assert(out[i] == tail[i - rest.len()]);
                        }
                    }
                } else {
                    assert(out == rest.push(last));
                    assert forall|i: int| 0 <= i < out.len() implies (#[trigger] out[i]).columns_below(
                        n,
                    ) by {
                        if i < rest.len() {
                            assert(out[i] == rest[i]);
                        }
                    }
                }
            },
            _ => {
                assert(out == rest.push(last));
                assert forall|i: int| 0 <= i < out.len() implies (#[trigger] out[i]).columns_below(
                    n,
                ) by {
                    if i < rest.len() {
                        assert(out[i] == rest[i]);
                    }
                }
            },
        }
    }
}

/// A call refers to no column that its arguments do not refer to.
pub proof fn law_call_keeps_columns(name: Seq<char>, args: Seq<SpecTypedExpr>, n: nat)
    requires
        forall|i: int| 0 <= i < args.len() ==> (#[trigger] args[i]).expr.columns_below(n),
    ensures
        spec_call_function(name, args) matches Ok(r) ==> r.expr.columns_below(n),
{
    reveal(spec_call_function);
    let exprs = exprs_of(args);
    assert forall|i: int| 0 <= i < exprs.len() implies (#[trigger] exprs[i]).columns_below(n) by {
        assert(args[i].expr.columns_below(n));
    }
    match spec_resolve(name, exprs, declared_types(args)) {
        Ok(SpecResolved::Unary(_)) => {
            assert(exprs[0].columns_below(n));
        },
        Ok(SpecResolved::Binary(_, sig)) => {
            assert(exprs[0].columns_below(n));
            assert(exprs[1].columns_below(n));
            match (exprs[0], exprs[1]) {
                (SpecExpr::Literal(_, _), SpecExpr::Literal(_, _)) => {},
                _ => {
                    lemma_cast_literal_columns(exprs[0], sig.input[0], n);
                    lemma_cast_literal_columns(exprs[1], sig.input[1], n);
                },
            }
        },
        Ok(SpecResolved::Variadic(func)) => {
            lemma_flat_args_columns(func, exprs, n);
            let flat = (SpecExpr::CallVariadic { func, exprs }).flatten();
            assert(flat == (SpecExpr::CallVariadic { func, exprs: flat_args(func, exprs) }));
            assert(flat.columns_below(n));
        },
        _ => {},
    }
}

/// A cast literal refers to no column, and any other expression is left as
/// it is.
proof fn lemma_cast_literal_columns(e: SpecExpr, dest: ConcreteDataType, n: nat)
    requires
        e.columns_below(n),
    ensures
        cast_literal(e, dest) matches Ok(r) ==> r.columns_below(n),
{
}

/// A chain of conditionals refers to no column that its clauses and its
/// final branch do not refer to.
proof fn lemma_build_if_then_columns(
    pairs: Seq<(SpecTypedExpr, SpecTypedExpr)>,
    els: SpecTypedExpr,
    n: nat,
)
    requires
        forall|i: int|
            0 <= i < pairs.len() ==> (#[trigger] pairs[i]).0.expr.columns_below(n)
                && pairs[i].1.expr.columns_below(n),
        els.expr.columns_below(n),
    ensures
        build_if_then(pairs, els).expr.columns_below(n),
    decreases pairs.len(),
{
    if pairs.len() > 0 {
        let rest = pairs.drop_first();
        assert forall|i: int| 0 <= i < rest.len() implies (#[trigger] rest[i]).0.expr.columns_below(
            n,
        ) && rest[i].1.expr.columns_below(n) by {
            assert(rest[i] == pairs[i + 1]);
        }
        lemma_build_if_then_columns(rest, els, n);
        assert(pairs[0].0.expr.columns_below(n));
    }
}

/// Every column that a translated expression refers to is a column of the
/// schema it was translated over.
pub proof fn law_columns_within_schema(
    e: SpecExpression,
    schema: Seq<ColumnType>,
    ext: Map<u32, Seq<char>>,
)
    ensures
        spec_rex(e, schema, ext) matches Ok(t) ==> t.expr.columns_below(schema.len()),
    decreases e, 0nat,
{
    match e.rex_type {
        Some(SpecRexType::SingularOrList(s)) => {
            match s.value {
                Some(value) => {
                    law_columns_within_schema(*value, schema, ext);
                },
                None => {},
            }
        },
        Some(SpecRexType::ScalarFunction(f)) => {
            lemma_scalar_func_columns(f, schema, ext);
        },
        Some(SpecRexType::IfThen(if_then)) => {
            lemma_ifthen_columns(*if_then, schema, ext);
        },
        Some(SpecRexType::Cast(cast)) => {
            lemma_cast_columns(*cast, schema, ext);
        },
        _ => {},
    }
}

proof fn lemma_cast_columns(cast: SpecCast, schema: Seq<ColumnType>, ext: Map<u32, Seq<char>>)
    ensures
        spec_cast_rex(cast, schema, ext) matches Ok(t) ==> t.expr.columns_below(schema.len()),
    decreases cast, 0nat,
{
    match cast.input {
        Some(input) => {
            law_columns_within_schema(*input, schema, ext);
        },
        None => {},
    }
}

proof fn lemma_scalar_func_columns(
    f: SpecScalarFunction,
    schema: Seq<ColumnType>,
    ext: Map<u32, Seq<char>>,
)
    ensures
        spec_scalar_func(f, schema, ext) matches Ok(t) ==> t.expr.columns_below(schema.len()),
    decreases f, 0nat,
{
    if ext.dom().contains(f.function_reference) {
        lemma_args_columns(f.arguments, f.arguments.len(), schema, ext);
        match spec_args(f.arguments, f.arguments.len(), schema, ext) {
            Ok(args) => {
                law_call_keeps_columns(ext[f.function_reference], args, schema.len());
            },
            Err(_) => {},
        }
    }
}

proof fn lemma_args_columns(
    args: Seq<SpecFunctionArgument>,
    n: nat,
    schema: Seq<ColumnType>,
    ext: Map<u32, Seq<char>>,
)
    ensures
        spec_args(args, n, schema, ext) matches Ok(ts) ==> forall|i: int|
            0 <= i < ts.len() ==> (#[trigger] ts[i]).expr.columns_below(schema.len()),
    decreases args, n,
{
    if !(n == 0 || n > args.len()) {
        lemma_args_columns(args, (n - 1) as nat, schema, ext);
        match args[n - 1].arg_type {
            Some(SpecArgType::Value(e)) => {
                law_columns_within_schema(e, schema, ext);
            },
            _ => {},
        }
    }
}

proof fn lemma_ifthen_columns(if_then: SpecIfThen, schema: Seq<ColumnType>, ext: Map<u32, Seq<char>>)
    ensures
        spec_ifthen(if_then, schema, ext) matches Ok(t) ==> t.expr.columns_below(schema.len()),
    decreases if_then, 0nat,
{
    lemma_clauses_columns(if_then.ifs, if_then.ifs.len(), schema, ext);
    match spec_clauses(if_then.ifs, if_then.ifs.len(), schema, ext) {
        Ok(pairs) => {
            match if_then.els {
                None => {
                    lemma_build_if_then_columns(pairs, null_branch(), schema.len());
                },
                Some(e) => {
                    law_columns_within_schema(*e, schema, ext);
                    match spec_rex(*e, schema, ext) {
                        Ok(els) => {
                            lemma_build_if_then_columns(pairs, els, schema.len());
                        },
                        Err(_) => {},
                    }
                },
            }
        },
        Err(_) => {},
    }
}

proof fn lemma_clauses_columns(
    ifs: Seq<SpecIfClause>,
    n: nat,
    schema: Seq<ColumnType>,
    ext: Map<u32, Seq<char>>,
)
    ensures
        spec_clauses(ifs, n, schema, ext) matches Ok(ps) ==> forall|i: int|
            0 <= i < ps.len() ==> (#[trigger] ps[i]).0.expr.columns_below(schema.len())
                && ps[i].1.expr.columns_below(schema.len()),
    decreases ifs, n,
{
    if !(n == 0 || n > ifs.len()) {
        lemma_clauses_columns(ifs, (n - 1) as nat, schema, ext);
        match ifs[n - 1] {
            SpecIfClause { cond: Some(c), then: Some(t) } => {
                law_columns_within_schema(c, schema, ext);
                law_columns_within_schema(t, schema, ext);
            },
            _ => {},
        }
    }
}

/// A cast node with an input and a target type that decodes is kept as a
/// unary cast call on the translated input, typed nullable of the target
/// type: the input is not evaluated, and keeps its own type.
pub proof fn law_cast_is_kept_as_call(
    cast: SpecCast,
    schema: Seq<ColumnType>,
    ext: Map<u32, Seq<char>>,
)
    requires
        cast.input is Some,
        spec_rex(*cast.input->Some_0, schema, ext) is Ok,
        cast.typ is Some,
        spec_from_type(cast.typ->Some_0) is Ok,
    ensures
        spec_cast_rex(cast, schema, ext) == Ok::<SpecTypedExpr, Error>(
            SpecTypedExpr {
                expr: SpecExpr::CallUnary {
                    func: UnaryFunc::Cast(spec_from_type(cast.typ->Some_0)->Ok_0),
                    expr: Box::new(spec_rex(*cast.input->Some_0, schema, ext)->Ok_0.expr),
                },
                typ: ColumnType::new_nullable(spec_from_type(cast.typ->Some_0)->Ok_0),
            },
        ),
{
}

/// A call with two arguments, not both literals, of a name that is no
/// variadic function is never folded: where it translates, it is a binary
/// call whose operands are the arguments, a literal among them cast and
/// any other expression unchanged.
pub proof fn law_binary_call_not_folded(name: Seq<char>, args: Seq<SpecTypedExpr>)
    requires
        args.len() == 2,
        VariadicFunc::spec_from_str(name) is Err,
        !(args[0].expr is Literal && args[1].expr is Literal),
        spec_call_function(name, args) is Ok,
    ensures
        spec_call_function(name, args)->Ok_0.expr matches SpecExpr::CallBinary {
            func,
            expr1,
            expr2,
        } && {
            &&& BinaryFunc::spec_from_str_expr_and_type(name, exprs_of(args), declared_types(args))
                matches Ok((f, _)) && f == func
            &&& !(args[0].expr is Literal) ==> *expr1 == args[0].expr
            &&& !(args[1].expr is Literal) ==> *expr2 == args[1].expr
            &&& args[0].expr is Literal ==> *expr1 is Literal
            &&& args[1].expr is Literal ==> *expr2 is Literal
        },
{
    reveal(spec_call_function);
}

/// The two arguments of a call on an operand and a literal, the literal
/// first or second.
pub open spec fn operand_and_literal(
    operand: SpecTypedExpr,
    value: SpecValue,
    literal_type: ConcreteDataType,
    literal_first: bool,
) -> Seq<SpecTypedExpr> {
    let literal = SpecTypedExpr {
        expr: SpecExpr::Literal(value, literal_type),
        typ: ColumnType::new_nullable(literal_type),
    };
    if literal_first {
        seq![literal, operand]
    } else {
        seq![operand, literal]
    }
}

/// A binary call on a typed operand that is no literal and on a literal
/// casts the literal to the type of the operand, and leaves the operand as
/// it is, whichever of the two comes first.
pub proof fn law_literal_takes_operand_type(
    name: Seq<char>,
    operand: SpecTypedExpr,
    value: SpecValue,
    literal_type: ConcreteDataType,
    literal_first: bool,
)
    requires
        !(operand.expr is Literal),
        operand.typ.scalar_type != ConcreteDataType::Null,
        VariadicFunc::spec_from_str(name) is Err,
        spec_call_function(
            name,
            operand_and_literal(operand, value, literal_type, literal_first),
        ) is Ok,
    ensures
        spec_cast(value, operand.typ.scalar_type) is Ok,
        spec_call_function(
            name,
            operand_and_literal(operand, value, literal_type, literal_first),
        )->Ok_0.expr matches SpecExpr::CallBinary { expr1, expr2, .. } && {
            let cast = SpecExpr::Literal(
                spec_cast(value, operand.typ.scalar_type)->Ok_0,
                operand.typ.scalar_type,
            );
            if literal_first {
                *expr1 == cast && *expr2 == operand.expr
            } else {
                *expr1 == operand.expr && *expr2 == cast
            }
        },
{
    reveal(spec_call_function);
    let args = operand_and_literal(operand, value, literal_type, literal_first);
    let literal = SpecTypedExpr {
        expr: SpecExpr::Literal(value, literal_type),
        typ: ColumnType::new_nullable(literal_type),
    };
    if literal_first {
        assert(exprs_of(args)[0] == literal.expr);
        assert(exprs_of(args)[1] == operand.expr);
        assert(declared_types(args)[0] == None::<ConcreteDataType>);
        assert(declared_types(args)[1] == Some(operand.typ.scalar_type));
    } else {
        assert(exprs_of(args)[0] == operand.expr);
        assert(exprs_of(args)[1] == literal.expr);
        assert(declared_types(args)[0] == Some(operand.typ.scalar_type));
        assert(declared_types(args)[1] == None::<ConcreteDataType>);
    }
}

/// A call with two literal arguments of a name that is no variadic function
/// is folded: where it translates, it is a literal, typed nullable.
pub proof fn law_literal_call_folds(name: Seq<char>, args: Seq<SpecTypedExpr>)
    requires
        args.len() == 2,
        VariadicFunc::spec_from_str(name) is Err,
        args[0].expr is Literal,
        args[1].expr is Literal,
        spec_call_function(name, args) is Ok,
    ensures
        spec_call_function(name, args)->Ok_0.expr is Literal,
        spec_call_function(name, args)->Ok_0.typ.nullable,
{
    reveal(spec_call_function);
}

/// Where every selected expression is a literal, the plan is a constant of
/// exactly one row, at the least timestamp and with multiplicity 1, whatever
/// the plan selected from.
pub proof fn law_literals_give_constant_plan(input: SpecTypedPlan, exprs: Seq<SpecTypedExpr>)
    requires
        crate::plan::all_literals(exprs),
    ensures
        input.select(exprs) is Ok,
        input.select(exprs)->Ok_0.plan matches SpecPlan::Constant { rows } && rows.len() == 1
            && rows[0].1 == TIMESTAMP_MIN && rows[0].2 == 1 && rows[0].0.len() == exprs.len(),
{
}

/// The result of a call is nullable.
pub proof fn law_call_is_nullable(name: Seq<char>, args: Seq<SpecTypedExpr>)
    ensures
        spec_call_function(name, args) matches Ok(r) ==> r.typ.nullable,
{
    reveal(spec_call_function);
}

/// Whether the expression is built of literals and of calls with two value
/// arguments of functions that are mapped and not variadic, and of nothing
/// else: the expressions that constant folding covers.
pub open spec fn foldable(e: SpecExpression, ext: Map<u32, Seq<char>>) -> bool
    decreases e,
{
    match e.rex_type {
        Some(SpecRexType::Literal(_)) => true,
        Some(SpecRexType::ScalarFunction(f)) => {
            &&& f.arguments.len() == 2
            &&& ext.dom().contains(f.function_reference)
            &&& VariadicFunc::spec_from_str(ext[f.function_reference]) is Err
            &&& f.arguments[0].arg_type matches Some(SpecArgType::Value(left)) && foldable(left, ext)
            &&& f.arguments[1].arg_type matches Some(SpecArgType::Value(right)) && foldable(
                right,
                ext,
            )
        },
        _ => false,
    }
}

/// The translation of exactly two value arguments: both translate, in
/// order, or the first failure decides.
pub proof fn lemma_two_args(
    args: Seq<SpecFunctionArgument>,
    left: SpecExpression,
    right: SpecExpression,
    schema: Seq<ColumnType>,
    ext: Map<u32, Seq<char>>,
)
    requires
        args.len() == 2,
        args[0].arg_type == Some(SpecArgType::Value(left)),
        args[1].arg_type == Some(SpecArgType::Value(right)),
    ensures
        spec_args(args, 2, schema, ext) == match spec_rex(left, schema, ext) {
            Err(e) => Err(e),
            Ok(l) => match spec_rex(right, schema, ext) {
                Err(e) => Err(e),
                Ok(r) => Ok(seq![l, r]),
            },
        },
{
    assert(spec_args(args, 0, schema, ext) == Ok::<Seq<SpecTypedExpr>, Error>(seq![]));
    assert(spec_args(args, 1, schema, ext) == match spec_rex(left, schema, ext) {
        Err(e) => Err::<Seq<SpecTypedExpr>, Error>(e),
        Ok(l) => Ok(seq![].push(l)),
    });
    match spec_rex(left, schema, ext) {
        Ok(l) => {
            match spec_rex(right, schema, ext) {
                Ok(r) => {
                    assert(seq![].push(l).push(r) =~= seq![l, r]);
                },
                Err(_) => {},
            }
        },
        Err(_) => {},
    }
}

/// A foldable expression translates to a literal.
proof fn lemma_foldable_is_literal(e: SpecExpression, schema: Seq<ColumnType>, ext: Map<u32, Seq<char>>)
    requires
        foldable(e, ext),
        spec_rex(e, schema, ext) is Ok,
    ensures
        spec_rex(e, schema, ext)->Ok_0.expr is Literal,
    decreases e,
{
    match e.rex_type {
        Some(SpecRexType::ScalarFunction(f)) => {
            let left = f.arguments[0].arg_type->Some_0->Value_0;
            let right = f.arguments[1].arg_type->Some_0->Value_0;
            lemma_two_args(f.arguments, left, right, schema, ext);
            assert(spec_rex(e, schema, ext) == spec_scalar_func(f, schema, ext));
            assert(spec_scalar_func(f, schema, ext) == match spec_args(f.arguments, 2, schema, ext) {
                Err(err) => Err(err),
                Ok(args) => spec_call_function(ext[f.function_reference], args),
            });
            assert(spec_rex(left, schema, ext) is Ok);
            assert(spec_rex(right, schema, ext) is Ok);
            lemma_foldable_is_literal(left, schema, ext);
            lemma_foldable_is_literal(right, schema, ext);
            let args = seq![spec_rex(left, schema, ext)->Ok_0, spec_rex(right, schema, ext)->Ok_0];
            law_literal_call_folds(ext[f.function_reference], args);
        },
        _ => {},
    }
}

/// An expression of literals and binary calls alone is evaluated when it is
/// translated: where it translates, it is a literal, and the plan that
/// selects it is a constant of exactly one row, at the least timestamp and
/// with multiplicity 1.
pub proof fn law_full_constant_folding(
    e: SpecExpression,
    schema: Seq<ColumnType>,
    ext: Map<u32, Seq<char>>,
    input: SpecTypedPlan,
)
    requires
        foldable(e, ext),
        spec_rex(e, schema, ext) is Ok,
    ensures
        spec_rex(e, schema, ext)->Ok_0.expr is Literal,
        input.select(seq![spec_rex(e, schema, ext)->Ok_0])->Ok_0.plan matches SpecPlan::Constant {
            rows,
        } && rows == seq![
            (
                seq![spec_rex(e, schema, ext)->Ok_0.expr->Literal_0],
                TIMESTAMP_MIN as int,
                1int,
            ),
        ],
{
    lemma_foldable_is_literal(e, schema, ext);
    let t = spec_rex(e, schema, ext)->Ok_0;
    assert(crate::plan::all_literals(seq![t]));
    assert(crate::plan::literal_values(seq![t]) =~= seq![t.expr->Literal_0]);
}

} // verus!
