//! Translation of portable expression nodes into typed scalar expressions.

use vstd::prelude::*;
use crate::datatypes::ConcreteDataType;
use crate::datatypes::SpecValue;
use crate::datatypes::cast;
use crate::datatypes::spec_cast;
use crate::error::view_result;
use crate::error::Error;
use crate::expr::func::ResolvedFunction;
use crate::expr::func::Signature;
use crate::expr::func::SpecResolved;
use crate::expr::func::SpecSignature;
use crate::expr::func::UnaryFunc;
use crate::expr::func::resolve;
use crate::expr::func::spec_resolve;
use crate::expr::scalar::ScalarExpr;
use crate::expr::scalar::SpecExpr;
use crate::expr::scalar::SpecTypedExpr;
use crate::expr::scalar::TypedExpr;
use crate::expr::scalar::exprs_of;
use crate::expr::scalar::typed_models;
use crate::proto::ArgType;
use crate::proto::Expression;
use crate::proto::FieldReference;
use crate::proto::FunctionExtensions;
use crate::proto::IfClause;
use crate::proto::IfThen;
use crate::proto::RexType;
use crate::proto::ScalarFunction;
use crate::proto::SpecArgType;
use crate::proto::SpecCast;
use crate::proto::SpecExpression;
use crate::proto::SpecFunctionArgument;
use crate::proto::SpecIfClause;
use crate::proto::SpecIfThen;
use crate::proto::SpecRexType;
use crate::proto::SpecScalarFunction;
use crate::repr::ColumnType;
use crate::repr::RelationType;
use crate::transform::literal::from_substrait_literal;
use crate::transform::literal::from_substrait_type;
use crate::transform::literal::spec_from_literal;
use crate::transform::literal::spec_from_type;

verus! {

/// The type that an argument brings to function resolution: none for a
/// literal, whose type is still free, and the inferred type for any other
/// expression.
pub open spec fn declared_type(arg: SpecTypedExpr) -> Option<ConcreteDataType> {
    if arg.expr is Literal {
        None
    } else {
        Some(arg.typ.scalar_type)
    }
}

/// The declared types of a sequence of typed expressions.
pub open spec fn declared_types(args: Seq<SpecTypedExpr>) -> Seq<Option<ConcreteDataType>> {
    Seq::new(args.len(), |i: int| declared_type(args[i]))
}

/// A literal cast, value and type together, to the type `dest`; a literal
/// is left as it is where `dest` is the untyped type, and so is every
/// expression that is no literal.
pub open spec fn cast_literal(e: SpecExpr, dest: ConcreteDataType) -> Result<SpecExpr, Error> {
    match e {
        SpecExpr::Literal(v, _) => if dest == ConcreteDataType::Null {
            Ok(e)
        } else {
            match spec_cast(v, dest) {
                Ok(cast) => Ok(SpecExpr::Literal(cast, dest)),
                Err(err) => Err(err),
            }
        },
        _ => Ok(e),
    }
}

/// The type of a folded constant: the declared output type, or, where that
/// is the untyped type, the first input type that is not.
pub open spec fn fold_output_type(sig: SpecSignature) -> ConcreteDataType {
    if sig.output != ConcreteDataType::Null {
        sig.output
    } else if sig.input.len() > 0 && sig.input[0] != ConcreteDataType::Null {
        sig.input[0]
    } else if sig.input.len() > 1 {
        sig.input[1]
    } else {
        ConcreteDataType::Null
    }
}

/// The typed expression for a call of the function `name` on translated
/// arguments.
///
/// A unary and a variadic call keep their arguments; the variadic call is
/// flattened. A binary call on two literals is evaluated and becomes a
/// literal. Any other binary call has each literal argument cast to the
/// type its position is held to. The result is nullable, of the output type
/// of the resolved function.
#[verifier::opaque]
pub open spec fn spec_call_function(name: Seq<char>, args: Seq<SpecTypedExpr>) -> Result<
    SpecTypedExpr,
    Error,
> {
    let exprs = exprs_of(args);
    match spec_resolve(name, exprs, declared_types(args)) {
        Err(e) => Err(e),
        Ok(SpecResolved::Unary(func)) => Ok(
            SpecTypedExpr {
                expr: SpecExpr::CallUnary { func, expr: Box::new(exprs[0]) },
                typ: ColumnType::new_nullable(func.spec_signature().output),
            },
        ),
        Ok(SpecResolved::Binary(func, sig)) => match (exprs[0], exprs[1]) {
            (SpecExpr::Literal(left, _), SpecExpr::Literal(right, _)) => match func.spec_eval(
                left,
                right,
            ) {
                Err(e) => Err(e),
                Ok(v) => Ok(
                    SpecTypedExpr {
                        expr: SpecExpr::Literal(v, fold_output_type(sig)),
                        typ: ColumnType::new_nullable(fold_output_type(sig)),
                    },
                ),
            },
            _ => match cast_literal(exprs[0], sig.input[0]) {
                Err(e) => Err(e),
                Ok(left) => match cast_literal(exprs[1], sig.input[1]) {
                    Err(e) => Err(e),
                    Ok(right) => Ok(
                        SpecTypedExpr {
                            expr: SpecExpr::CallBinary {
                                func,
                                expr1: Box::new(left),
                                expr2: Box::new(right),
                            },
                            typ: ColumnType::new_nullable(func.spec_signature().output),
                        },
                    ),
                },
            },
        },
        Ok(SpecResolved::Variadic(func)) => Ok(
            SpecTypedExpr {
                expr: (SpecExpr::CallVariadic { func, exprs }).flatten(),
                typ: ColumnType::new_nullable(func.spec_signature().output),
            },
        ),
        Ok(SpecResolved::Unmaterializable(func)) => Ok(
            SpecTypedExpr {
                expr: SpecExpr::CallUnmaterializable(func),
                typ: ColumnType::new_nullable(func.spec_signature().output),
            },
        ),
    }
}

/// The typed expression for a field reference over the schema `schema`.
pub open spec fn spec_selection(field_ref: FieldReference, schema: Seq<ColumnType>) -> Result<
    SpecTypedExpr,
    Error,
> {
    match field_ref {
        FieldReference::StructField { field, has_child } => if has_child {
            Err(Error::UnsupportedFeature)
        } else if 0 <= field < schema.len() {
            Ok(SpecTypedExpr { expr: SpecExpr::Column(field as nat), typ: schema[field as int] })
        } else {
            Err(Error::InvalidInput)
        },
        _ => Err(Error::UnsupportedFeature),
    }
}

/// The null literal of the untyped type, which stands for a missing else
/// branch.
pub open spec fn null_branch() -> SpecTypedExpr {
    SpecTypedExpr {
        expr: SpecExpr::Literal(SpecValue::Null, ConcreteDataType::Null),
        typ: ColumnType::new_nullable(ConcreteDataType::Null),
    }
}

/// The chain of conditionals for the translated clauses `pairs`, each a
/// condition with the expression it selects, and the final branch `els`:
/// the first clause is the root, each clause holds the rest of the chain as
/// its else branch, and each node has the type of its own `then` branch.
pub open spec fn build_if_then(
    pairs: Seq<(SpecTypedExpr, SpecTypedExpr)>,
    els: SpecTypedExpr,
) -> SpecTypedExpr
    decreases pairs.len(),
{
    if pairs.len() == 0 {
        els
    } else {
        SpecTypedExpr {
            expr: SpecExpr::If {
                cond: Box::new(pairs[0].0.expr),
                then: Box::new(pairs[0].1.expr),
                els: Box::new(build_if_then(pairs.drop_first(), els).expr),
            },
            typ: pairs[0].1.typ,
        }
    }
}

/// What the translation of an expression node gives: the typed expression,
/// or the first failure met.
pub open spec fn spec_rex(
    e: SpecExpression,
    schema: Seq<ColumnType>,
    ext: Map<u32, Seq<char>>,
) -> Result<SpecTypedExpr, Error>
    decreases e, 0nat,
{
    match e.rex_type {
        Some(SpecRexType::Literal(lit)) => match spec_from_literal(lit) {
            Ok((v, t)) => Ok(
                SpecTypedExpr { expr: SpecExpr::Literal(v, t), typ: ColumnType::new_nullable(t) },
            ),
            Err(err) => Err(err),
        },
        Some(SpecRexType::SingularOrList(s)) => match s.value {
            None => Err(Error::InvalidInput),
            Some(value) => if s.options.len() != 0 {
                Err(Error::UnsupportedFeature)
            } else {
                spec_rex(*value, schema, ext)
            },
        },
        Some(SpecRexType::Selection(field_ref)) => spec_selection(field_ref, schema),
        Some(SpecRexType::ScalarFunction(f)) => spec_scalar_func(f, schema, ext),
        Some(SpecRexType::IfThen(if_then)) => spec_ifthen(*if_then, schema, ext),
        Some(SpecRexType::Cast(cast)) => spec_cast_rex(*cast, schema, ext),
        Some(SpecRexType::WindowFunction(_)) => Err(Error::UnsupportedFeature),
        _ => Err(Error::UnsupportedFeature),
    }
}

/// What the translation of a cast node gives.
pub open spec fn spec_cast_rex(
    cast: SpecCast,
    schema: Seq<ColumnType>,
    ext: Map<u32, Seq<char>>,
) -> Result<SpecTypedExpr, Error>
    decreases cast, 0nat,
{
    match cast.input {
        None => Err(Error::InvalidInput),
        Some(input) => match spec_rex(*input, schema, ext) {
            Err(err) => Err(err),
            Ok(arg) => match cast.typ {
                None => Err(Error::InvalidInput),
                Some(typ) => match spec_from_type(typ) {
                    Err(err) => Err(err),
                    Ok(target) => Ok(
                        SpecTypedExpr {
                            expr: SpecExpr::CallUnary {
                                func: UnaryFunc::Cast(target),
                                expr: Box::new(arg.expr),
                            },
                            typ: ColumnType::new_nullable(target),
                        },
                    ),
                },
            },
        },
    }
}

/// What the translation of a scalar function call gives.
pub open spec fn spec_scalar_func(
    f: SpecScalarFunction,
    schema: Seq<ColumnType>,
    ext: Map<u32, Seq<char>>,
) -> Result<SpecTypedExpr, Error>
    decreases f, 0nat,
{
    if !ext.dom().contains(f.function_reference) {
        Err(Error::FunctionReferenceNotFound)
    } else {
        match spec_args(f.arguments, f.arguments.len(), schema, ext) {
            Err(err) => Err(err),
            Ok(args) => spec_call_function(ext[f.function_reference], args),
        }
    }
}

/// What the translation of the first `n` arguments of a call gives: the
/// translated arguments in order, or the failure of the first argument that
/// fails.
pub open spec fn spec_args(
    args: Seq<SpecFunctionArgument>,
    n: nat,
    schema: Seq<ColumnType>,
    ext: Map<u32, Seq<char>>,
) -> Result<Seq<SpecTypedExpr>, Error>
    decreases args, n,
{
    if n == 0 || n > args.len() {
        Ok(seq![])
    } else {
        match spec_args(args, (n - 1) as nat, schema, ext) {
            Err(err) => Err(err),
            Ok(front) => match args[n - 1].arg_type {
                Some(SpecArgType::Value(e)) => match spec_rex(e, schema, ext) {
                    Ok(arg) => Ok(front.push(arg)),
                    Err(err) => Err(err),
                },
                _ => Err(Error::UnsupportedFeature),
            },
        }
    }
}

/// What the translation of an if-then chain gives.
pub open spec fn spec_ifthen(
    if_then: SpecIfThen,
    schema: Seq<ColumnType>,
    ext: Map<u32, Seq<char>>,
) -> Result<SpecTypedExpr, Error>
    decreases if_then, 0nat,
{
    match spec_clauses(if_then.ifs, if_then.ifs.len(), schema, ext) {
        Err(err) => Err(err),
        Ok(pairs) => match if_then.els {
            None => Ok(build_if_then(pairs, null_branch())),
            Some(e) => match spec_rex(*e, schema, ext) {
                Err(err) => Err(err),
                Ok(els) => Ok(build_if_then(pairs, els)),
            },
        },
    }
}

/// What the translation of the first `n` clauses of an if-then chain gives:
/// each condition with the expression it selects, in order, or the failure
/// of the first clause that fails.
pub open spec fn spec_clauses(
    ifs: Seq<SpecIfClause>,
    n: nat,
    schema: Seq<ColumnType>,
    ext: Map<u32, Seq<char>>,
) -> Result<Seq<(SpecTypedExpr, SpecTypedExpr)>, Error>
    decreases ifs, n,
{
    if n == 0 || n > ifs.len() {
        Ok(seq![])
    } else {
        match spec_clauses(ifs, (n - 1) as nat, schema, ext) {
            Err(err) => Err(err),
            Ok(front) => match ifs[n - 1] {
                SpecIfClause { cond: Some(c), then: Some(t) } => match spec_rex(c, schema, ext) {
                    Err(err) => Err(err),
                    Ok(cond) => match spec_rex(t, schema, ext) {
                        Err(err) => Err(err),
                        Ok(chosen) => Ok(front.push((cond, chosen))),
                    },
                },
                _ => Err(Error::InvalidInput),
            },
        }
    }
}

/// Casts a literal to the type `dest`, and leaves any other expression, and
/// any literal where `dest` is the untyped type, as it is.
fn cast_literal_expr(e: ScalarExpr, dest: ConcreteDataType) -> (r: Result<ScalarExpr, Error>)
    ensures
        view_result(r) == cast_literal(e@, dest),
{
    match e {
        ScalarExpr::Literal(v, t) => {
            if dest.is_null() {
                Ok(ScalarExpr::Literal(v, t))
            } else {
                match cast(v, &dest) {
                    Ok(converted) => Ok(ScalarExpr::Literal(converted, dest)),
                    Err(err) => Err(err),
                }
            }
        },
        other => Ok(other),
    }
}

/// The type of a folded constant: the declared output type, or, where that
/// is the untyped type, the first input type that is not.
pub fn fold_output(sig: &Signature) -> (t: ConcreteDataType)
    ensures
        t == fold_output_type(sig@),
{
    if !sig.output.is_null() {
        sig.output
    } else if sig.input.len() > 0 && !sig.input[0].is_null() {
        sig.input[0]
    } else if sig.input.len() > 1 {
        sig.input[1]
    } else {
        ConcreteDataType::Null
    }
}

/// Splits translated arguments into their expressions and their declared
/// types.
fn split_arguments(args: Vec<TypedExpr>) -> (r: (Vec<ScalarExpr>, Vec<Option<ConcreteDataType>>))
    ensures
        ScalarExpr::models(r.0@) == exprs_of(typed_models(args@)),
        r.1@ == declared_types(typed_models(args@)),
{
    let ghost all = typed_models(args@);
    let mut rest = args;
    let mut exprs: Vec<ScalarExpr> = Vec::new();
    let mut types: Vec<Option<ConcreteDataType>> = Vec::new();
    let mut i: usize = 0;
    while i < rest.len()
        invariant
            i <= rest@.len(),
            rest@.len() == args@.len(),
            all == typed_models(args@),
            forall|j: int| i <= j < rest@.len() ==> rest@[j] == args@[j],
            exprs@.len() == i,
            types@.len() == i,
            forall|j: int| 0 <= j < i ==> (#[trigger] exprs@[j])@ == all[j].expr,
            forall|j: int| 0 <= j < i ==> #[trigger] types@[j] == declared_type(all[j]),
        decreases rest@.len() - i,
    {
        let mut slot = TypedExpr {
            expr: ScalarExpr::Column(0),
            typ: ColumnType { scalar_type: ConcreteDataType::Null, nullable: true },
        };
        core::mem::swap(&mut rest[i], &mut slot);
        assert(slot@ == all[i as int]);
        let declared = if slot.expr.is_literal() {
            None
        } else {
            Some(slot.typ.scalar_type)
        };
        exprs.push(slot.expr);
        types.push(declared);
        i = i + 1;
    }
    assert(ScalarExpr::models(exprs@) =~= exprs_of(all));
    assert(types@ =~= declared_types(all));
    (exprs, types)
}

impl TypedExpr {
    /// Builds the typed expression for a call of the function `name` on
    /// translated arguments.
    ///
    /// Fails with `UnsupportedFeature` where the name has no form for the
    /// arguments, with `EvalError` where a binary call on two literals
    /// cannot be evaluated, and with `TypeError` where a literal argument
    /// of a binary call cannot be cast to the type its position is held to.
    pub fn call_function(name: &str, args: Vec<TypedExpr>) -> (r: Result<TypedExpr, Error>)
        ensures
            view_result(r) == spec_call_function(name@, typed_models(args@)),
    {
        proof {
            reveal(spec_call_function);
        }
        let (mut arg_exprs, arg_types) = split_arguments(args);
        let ghost exprs = ScalarExpr::models(arg_exprs@);
        let resolved = match resolve(name, &arg_exprs, &arg_types) {
            Ok(f) => f,
            Err(e) => { return Err(e); },
        };
        match resolved {
            ResolvedFunction::Unary(func) => {
                assert(arg_exprs@.len() == 1);
                let arg = arg_exprs.pop().unwrap();
                assert(arg@ == exprs[0]);
                let ret_type = ColumnType::new_nullable(func.signature().output);
                Ok(TypedExpr::new(arg.call_unary(func), ret_type))
            },
            ResolvedFunction::Binary(func, signature) => {
                assert(arg_exprs@.len() == 2);
                let right = arg_exprs.pop().unwrap();
                let left = arg_exprs.pop().unwrap();
                assert(left@ == exprs[0] && right@ == exprs[1]);
                match (left, right) {
                    (ScalarExpr::Literal(l, _), ScalarExpr::Literal(r, _)) => {
                        // both operands are constants: fold the call
                        let res = match func.eval(&l, &r) {
                            Ok(v) => v,
                            Err(e) => { return Err(e); },
                        };
                        let con_typ = fold_output(&signature);
                        let typ = ColumnType::new_nullable(con_typ);
                        Ok(TypedExpr::new(ScalarExpr::Literal(res, con_typ), typ))
                    },
                    (left, right) => {
                        let left = match cast_literal_expr(left, signature.input[0]) {
                            Ok(e) => e,
                            Err(e) => { return Err(e); },
                        };
                        let right = match cast_literal_expr(right, signature.input[1]) {
                            Ok(e) => e,
                            Err(e) => { return Err(e); },
                        };
                        let ret_type = ColumnType::new_nullable(func.signature().output);
                        Ok(TypedExpr::new(left.call_binary(right, func), ret_type))
                    },
                }
            },
            ResolvedFunction::Variadic(func) => {
                let ret_type = ColumnType::new_nullable(func.signature().output);
                proof {
                    ScalarExpr::lemma_view_variadic(func, arg_exprs);
                }
                let mut expr = ScalarExpr::CallVariadic { func, exprs: arg_exprs };
                expr.optimize();
                Ok(TypedExpr::new(expr, ret_type))
            },
            ResolvedFunction::Unmaterializable(func) => {
                let ret_type = ColumnType::new_nullable(func.signature().output);
                Ok(TypedExpr::new(ScalarExpr::CallUnmaterializable(func), ret_type))
            },
        }
    }
}

/// Builds the chain of conditionals for translated clauses and a final
/// branch.
fn build_if_then_chain(pairs: Vec<(TypedExpr, TypedExpr)>, els: TypedExpr) -> (r: TypedExpr)
    ensures
        r@ == build_if_then(Seq::new(pairs@.len(), |i: int| (pairs@[i].0@, pairs@[i].1@)), els@),
{
    let ghost all = Seq::new(pairs@.len(), |i: int| (pairs@[i].0@, pairs@[i].1@));
    let mut rest = pairs;
    let mut acc = els;
    assert(all.skip(rest@.len() as int) =~= seq![]);
    while rest.len() > 0
        invariant
            rest@.len() <= pairs@.len(),
            all == Seq::new(pairs@.len(), |i: int| (pairs@[i].0@, pairs@[i].1@)),
            forall|j: int| 0 <= j < rest@.len() ==> rest@[j] == pairs@[j],
            acc@ == build_if_then(all.skip(rest@.len() as int), els@),
        decreases rest@.len(),
    {
        let ghost k = rest@.len() - 1;
        let (cond, chosen) = rest.pop().unwrap();
        assert(all.skip(k).drop_first() =~= all.skip(k + 1));
        assert(all.skip(k)[0] == (cond@, chosen@));
        assert(all.skip(k).len() > 0);
        acc = TypedExpr {
            expr: ScalarExpr::If {
                cond: Box::new(cond.expr),
                then: Box::new(chosen.expr),
                els: Box::new(acc.expr),
            },
            typ: chosen.typ,
        };
    }
    assert(all.skip(0) =~= all);
    acc
}

impl TypedExpr {
    /// Translates a call of a scalar function.
    ///
    /// Fails with `FunctionReferenceNotFound` where the extension mapping
    /// does not hold the function reference; then with the failure of the
    /// first argument that does not translate, `UnsupportedFeature` for an
    /// argument that is no value; then as [`TypedExpr::call_function`]
    /// does.
    #[verifier::loop_isolation(false)]
    pub fn from_substrait_scalar_func(
        f: &ScalarFunction,
        input_schema: &RelationType,
        extensions: &FunctionExtensions,
    ) -> (r: Result<TypedExpr, Error>)
        ensures
            view_result(r) == spec_scalar_func(f@, input_schema@, extensions@),
        decreases f, 0nat,
    {
        let fn_name = match extensions.get(f.function_reference) {
            Some(name) => name,
            None => { return Err(Error::FunctionReferenceNotFound); },
        };
        let mut arg_exprs: Vec<TypedExpr> = Vec::new();
        let mut i: usize = 0;
        assert(typed_models(arg_exprs@) =~= seq![]);
        assert(f@.arguments.len() == f.arguments@.len());
        while i < f.arguments.len()
            invariant
                i <= f.arguments@.len(),
                spec_args(f@.arguments, i as nat, input_schema@, extensions@) == Ok::<
                    Seq<SpecTypedExpr>,
                    Error,
                >(typed_models(arg_exprs@)),
            decreases f.arguments@.len() - i,
        {
            assert(decreases_to!(f.arguments => f.arguments@[i as int]));
            assert(f@.arguments[i as int] == f.arguments@[i as int].model());
            let ghost front = typed_models(arg_exprs@);
            match &f.arguments[i].arg_type {
                Some(ArgType::Value(e)) => {
                    assert(f@.arguments[i as int].arg_type == Some(
                        SpecArgType::Value(e@),
                    )) by {
                        assert(f.arguments@[i as int].arg_type->Some_0.model()
                            == SpecArgType::Value(e@));
                    }
                    match TypedExpr::from_substrait_rex(e, input_schema, extensions) {
                        Ok(arg) => {
                            arg_exprs.push(arg);
                            assert(typed_models(arg_exprs@) =~= front.push(arg@));
                        },
                        Err(err) => {
                            proof {
                                lemma_args_error(
                                    f@.arguments,
                                    (i + 1) as nat,
                                    f@.arguments.len(),
                                    input_schema@,
                                    extensions@,
                                );
                            }
                            return Err(err);
                        },
                    }
                },
                _ => {
                    proof {
                        if f.arguments@[i as int].arg_type is Some {
                            assert(f.arguments@[i as int].arg_type->Some_0.model()
                                == SpecArgType::Other);
                        }
                        lemma_args_error(
                            f@.arguments,
                            (i + 1) as nat,
                            f@.arguments.len(),
                            input_schema@,
                            extensions@,
                        );
                    }
                    return Err(Error::UnsupportedFeature);
                },
            }
            i = i + 1;
        }
        TypedExpr::call_function(fn_name.as_str(), arg_exprs)
    }

    /// Translates an if-then chain.
    ///
    /// Fails with the failure of the first clause that does not translate,
    /// `InvalidInput` for a clause without condition or without selected
    /// expression; then with the failure of the else branch, where there is
    /// one. A missing else branch stands for the untyped null literal.
    ///
    /// Each conditional of the chain has the type of the expression that
    /// its own clause selects. The branches are not held to one type.
    #[verifier::loop_isolation(false)]
    pub fn from_substrait_ifthen_rex(
        if_then: &IfThen,
        input_schema: &RelationType,
        extensions: &FunctionExtensions,
    ) -> (r: Result<TypedExpr, Error>)
        ensures
            view_result(r) == spec_ifthen(if_then@, input_schema@, extensions@),
        decreases if_then, 0nat,
    {
        let mut ifs: Vec<(TypedExpr, TypedExpr)> = Vec::new();
        let mut i: usize = 0;
        assert(Seq::new(ifs@.len(), |k: int| (ifs@[k].0@, ifs@[k].1@)) =~= seq![]);
        assert(if_then@.ifs.len() == if_then.ifs@.len());
        while i < if_then.ifs.len()
            invariant
                i <= if_then.ifs@.len(),
                spec_clauses(if_then@.ifs, i as nat, input_schema@, extensions@) == Ok::<
                    Seq<(SpecTypedExpr, SpecTypedExpr)>,
                    Error,
                >(Seq::new(ifs@.len(), |k: int| (ifs@[k].0@, ifs@[k].1@))),
            decreases if_then.ifs@.len() - i,
        {
            assert(decreases_to!(if_then.ifs => if_then.ifs@[i as int]));
            let ghost front = Seq::new(ifs@.len(), |k: int| (ifs@[k].0@, ifs@[k].1@));
            let ghost total = if_then@.ifs.len();
            assert(if_then@.ifs[i as int] == if_then.ifs@[i as int].model());
            match &if_then.ifs[i] {
                IfClause { cond: Some(proto_if), then: Some(proto_then) } => {
                    assert(if_then@.ifs[i as int] == (SpecIfClause {
                        cond: Some(proto_if@),
                        then: Some(proto_then@),
                    }));
                    let cond = match TypedExpr::from_substrait_rex(
                        proto_if,
                        input_schema,
                        extensions,
                    ) {
                        Ok(t) => t,
                        Err(err) => {
                            proof {
                                lemma_clauses_error(
                                    if_then@.ifs,
                                    (i + 1) as nat,
                                    total,
                                    input_schema@,
                                    extensions@,
                                );
                            }
                            return Err(err);
                        },
                    };
                    let chosen = match TypedExpr::from_substrait_rex(
                        proto_then,
                        input_schema,
                        extensions,
                    ) {
                        Ok(t) => t,
                        Err(err) => {
                            proof {
                                lemma_clauses_error(
                                    if_then@.ifs,
                                    (i + 1) as nat,
                                    total,
                                    input_schema@,
                                    extensions@,
                                );
                            }
                            return Err(err);
                        },
                    };
                    let ghost pair = (cond@, chosen@);
                    ifs.push((cond, chosen));
                    assert(Seq::new(ifs@.len(), |k: int| (ifs@[k].0@, ifs@[k].1@)) =~= front.push(
                        pair,
                    ));
                },
                _ => {
                    proof {
                        lemma_clauses_error(
                            if_then@.ifs,
                            (i + 1) as nat,
                            total,
                            input_schema@,
                            extensions@,
                        );
                    }
                    return Err(Error::InvalidInput);
                },
            }
            i = i + 1;
        }
        let els = match &if_then.els {
            Some(e) => match TypedExpr::from_substrait_rex(e, input_schema, extensions) {
                Ok(t) => t,
                Err(err) => { return Err(err); },
            },
            None => TypedExpr::new(
                ScalarExpr::literal_null(),
                ColumnType::new_nullable(ConcreteDataType::Null),
            ),
        };
        Ok(build_if_then_chain(ifs, els))
    }

    /// Translates an expression node over the schema `input_schema`.
    ///
    /// A literal is decoded and typed nullable. A value wrapper gives its
    /// value, and fails with `InvalidInput` without one and with
    /// `UnsupportedFeature` with a list of options. A field reference gives
    /// the column of its ordinal with the type the schema has for it; it
    /// fails with `UnsupportedFeature` unless it is a direct reference to a
    /// struct field without nested segment, and with `InvalidInput` where
    /// the schema has no such column. A cast gives a unary cast call, typed
    /// nullable of the target type, and fails with `InvalidInput` without
    /// input or target type. A window function, and any other node kind,
    /// fails with `UnsupportedFeature`.
    pub fn from_substrait_rex(
        e: &Expression,
        input_schema: &RelationType,
        extensions: &FunctionExtensions,
    ) -> (r: Result<TypedExpr, Error>)
        ensures
            view_result(r) == spec_rex(e@, input_schema@, extensions@),
        decreases e, 0nat,
    {
        match &e.rex_type {
            Some(RexType::Literal(lit)) => {
                match from_substrait_literal(lit) {
                    Ok((v, t)) => Ok(
                        TypedExpr::new(ScalarExpr::Literal(v, t), ColumnType::new_nullable(t)),
                    ),
                    Err(err) => Err(err),
                }
            },
            Some(RexType::SingularOrList(s)) => {
                let substrait_expr = match &s.value {
                    Some(value) => value,
                    None => { return Err(Error::InvalidInput); },
                };
                if s.options.len() != 0 {
                    return Err(Error::UnsupportedFeature);
                }
                TypedExpr::from_substrait_rex(substrait_expr, input_schema, extensions)
            },
            Some(RexType::Selection(field_ref)) => match field_ref {
                FieldReference::StructField { field, has_child } => {
                    if *has_child {
                        Err(Error::UnsupportedFeature)
                    } else if *field < 0 {
                        Err(Error::InvalidInput)
                    } else {
                        let column = *field as usize;
                        match input_schema.column_type(column) {
                            Some(column_type) => Ok(
                                TypedExpr::new(ScalarExpr::Column(column), column_type),
                            ),
                            None => Err(Error::InvalidInput),
                        }
                    }
                },
                _ => Err(Error::UnsupportedFeature),
            },
            Some(RexType::ScalarFunction(f)) => TypedExpr::from_substrait_scalar_func(
                f,
                input_schema,
                extensions,
            ),
            Some(RexType::IfThen(if_then)) => TypedExpr::from_substrait_ifthen_rex(
                if_then,
                input_schema,
                extensions,
            ),
            Some(RexType::Cast(c)) => {
                assert(e@.rex_type == Some(SpecRexType::Cast(Box::new((**c).model()))));
                assert(spec_rex(e@, input_schema@, extensions@) == spec_cast_rex(
                    (**c).model(),
                    input_schema@,
                    extensions@,
                ));
                let input = match &c.input {
                    Some(input) => input,
                    None => { return Err(Error::InvalidInput); },
                };
                let input = match TypedExpr::from_substrait_rex(input, input_schema, extensions) {
                    Ok(t) => t,
                    Err(err) => { return Err(err); },
                };
                let target = match &c.typ {
                    Some(t) => t,
                    None => { return Err(Error::InvalidInput); },
                };
                let cast_type = match from_substrait_type(target) {
                    Ok(t) => t,
                    Err(err) => { return Err(err); },
                };
                Ok(
                    TypedExpr::new(
                        input.expr.call_unary(UnaryFunc::Cast(cast_type)),
                        ColumnType::new_nullable(cast_type),
                    ),
                )
            },
            Some(RexType::WindowFunction(_)) => Err(Error::UnsupportedFeature),
            _ => Err(Error::UnsupportedFeature),
        }
    }
}

/// A failure among the first `n` arguments is the failure of every longer
/// prefix.
pub proof fn lemma_args_error(
    args: Seq<SpecFunctionArgument>,
    n: nat,
    m: nat,
    schema: Seq<ColumnType>,
    ext: Map<u32, Seq<char>>,
)
    requires
        n <= m <= args.len(),
        spec_args(args, n, schema, ext) is Err,
    ensures
        spec_args(args, m, schema, ext) == spec_args(args, n, schema, ext),
    decreases m,
{
    if n < m {
        lemma_args_error(args, n, (m - 1) as nat, schema, ext);
    }
}

/// A failure among the first `n` clauses is the failure of every longer
/// prefix.
pub proof fn lemma_clauses_error(
    ifs: Seq<SpecIfClause>,
    n: nat,
    m: nat,
    schema: Seq<ColumnType>,
    ext: Map<u32, Seq<char>>,
)
    requires
        n <= m <= ifs.len(),
        spec_clauses(ifs, n, schema, ext) is Err,
    ensures
        spec_clauses(ifs, m, schema, ext) == spec_clauses(ifs, n, schema, ext),
    decreases m,
{
    if n < m {
        lemma_clauses_error(ifs, n, (m - 1) as nat, schema, ext);
    }
}

} // verus!
