//! Laws of conjunctions: a chain of `and` calls becomes one flat
//! conjunction.

use vstd::prelude::*;
use crate::datatypes::ConcreteDataType;
use crate::error::Error;
use crate::expr::func::SpecResolved;
use crate::expr::func::VariadicFunc;
use crate::expr::func::spec_resolve;
use crate::expr::scalar::exprs_of;
use crate::expr::scalar::flat_args;
use crate::expr::scalar::lemma_flat_args_is_flat;
use crate::expr::scalar::lemma_flat_args_of_flat;
use crate::expr::scalar::SpecExpr;
use crate::expr::scalar::SpecTypedExpr;
use crate::proto::SpecArgType;
use crate::proto::SpecExpression;
use crate::proto::SpecFunctionArgument;
use crate::proto::SpecRexType;
use crate::proto::SpecScalarFunction;
use crate::repr::ColumnType;
use crate::transform::expr::declared_types;
use crate::transform::expr::spec_call_function;
use crate::transform::expr::spec_rex;
use crate::transform::expr::spec_scalar_func;
use crate::transform::laws::lemma_two_args;

verus! {

/// The conjunction of `members`, built as the translation builds it from a
/// chain of two-argument calls: the first two members are joined, and each
/// further member is joined to the conjunction so far.
pub open spec fn spec_conjunction(members: Seq<SpecTypedExpr>) -> Result<SpecTypedExpr, Error>
    decreases members.len(),
{
    if members.len() < 2 {
        Err(Error::InvalidInput)
    } else if members.len() == 2 {
        spec_call_function("and"@, members)
    } else {
        match spec_conjunction(members.drop_last()) {
            Ok(front) => spec_call_function("and"@, seq![front, members.last()]),
            Err(e) => Err(e),
        }
    }
}

/// A chain of two or more members joined by `and`, none of them itself a
/// conjunction, translates to one variadic conjunction of all the members,
/// in order, typed nullable boolean: never to nested conjunctions.
pub proof fn law_conjunction_flattening(members: Seq<SpecTypedExpr>)
    requires
        members.len() >= 2,
        forall|i: int|
            0 <= i < members.len() ==> !(#[trigger] members[i]).expr.is_call_of(VariadicFunc::And),
    ensures
        spec_conjunction(members) == Ok::<SpecTypedExpr, Error>(
            SpecTypedExpr {
                expr: SpecExpr::CallVariadic { func: VariadicFunc::And, exprs: exprs_of(members) },
                typ: ColumnType::new_nullable(ConcreteDataType::Boolean),
            },
        ),
    decreases members.len(),
{
    reveal(spec_call_function);
    let and = VariadicFunc::And;
    if members.len() == 2 {
        let exprs = exprs_of(members);
        assert forall|i: int| 0 <= i < exprs.len() implies !(#[trigger] exprs[i]).is_call_of(
            and,
        ) by {
            assert(!members[i].expr.is_call_of(and));
        }
        lemma_flat_args_of_flat(and, exprs);
    } else {
        let front = members.drop_last();
        assert forall|i: int| 0 <= i < front.len() implies !(#[trigger] front[i]).expr.is_call_of(
            and,
        ) by {
            assert(front[i] == members[i]);
        }
        law_conjunction_flattening(front);
        let joined = SpecTypedExpr {
            expr: SpecExpr::CallVariadic { func: and, exprs: exprs_of(front) },
            typ: ColumnType::new_nullable(ConcreteDataType::Boolean),
        };
        let args = seq![joined, members.last()];
        let exprs = exprs_of(args);
        assert(exprs =~= seq![joined.expr, members.last().expr]);
        // flattening the pair: the members so far, then the new member
        let inner = exprs_of(front);
        assert forall|i: int| 0 <= i < inner.len() implies !(#[trigger] inner[i]).is_call_of(
            and,
        ) by {
            assert(!members[i].expr.is_call_of(and));
        }
        lemma_flat_args_of_flat(and, inner);
        assert(exprs.subrange(0, 1) =~= seq![joined.expr]);
        assert(seq![joined.expr].subrange(0, 0) =~= Seq::<SpecExpr>::empty());
        assert(flat_args(and, seq![joined.expr]) =~= inner) by {
            assert(flat_args(and, Seq::<SpecExpr>::empty()) =~= Seq::<SpecExpr>::empty());
            assert(seq![joined.expr][0] == joined.expr);
        }
        assert(!members[members.len() - 1].expr.is_call_of(and));
        assert(flat_args(and, exprs) =~= inner.push(members.last().expr));
        assert(inner.push(members.last().expr) =~= exprs_of(members));
    }
}

/// A call of `and` on two value arguments translates to one variadic
/// conjunction that holds the members of both arguments: an argument that
/// is itself a conjunction gives its members, any other argument is a
/// member. No member of the result is a conjunction.
#[verifier::rlimit(40)]
pub proof fn law_conjunction_node(
    f: SpecScalarFunction,
    left: SpecExpression,
    right: SpecExpression,
    schema: Seq<ColumnType>,
    ext: Map<u32, Seq<char>>,
)
    requires
        f.arguments.len() == 2,
        f.arguments[0].arg_type == Some(SpecArgType::Value(left)),
        f.arguments[1].arg_type == Some(SpecArgType::Value(right)),
        ext.dom().contains(f.function_reference),
        ext[f.function_reference] == "and"@,
        spec_rex(left, schema, ext) is Ok,
        spec_rex(right, schema, ext) is Ok,
    ensures
        spec_scalar_func(f, schema, ext) == Ok::<SpecTypedExpr, Error>(
            SpecTypedExpr {
                expr: SpecExpr::CallVariadic {
                    func: VariadicFunc::And,
                    exprs: flat_args(
                        VariadicFunc::And,
                        seq![
                            spec_rex(left, schema, ext)->Ok_0.expr,
                            spec_rex(right, schema, ext)->Ok_0.expr,
                        ],
                    ),
                },
                typ: ColumnType::new_nullable(ConcreteDataType::Boolean),
            },
        ),
        spec_scalar_func(f, schema, ext)->Ok_0.expr.is_flat(),
{
    let l = spec_rex(left, schema, ext)->Ok_0;
    let r = spec_rex(right, schema, ext)->Ok_0;
    lemma_call_node(f, left, right, schema, ext);
    lemma_call_and(seq![l, r]);
    lemma_exprs_of_pair(l, r);
    lemma_flat_args_is_flat(VariadicFunc::And, seq![l.expr, r.expr]);
}

/// A call of `and` is the variadic conjunction of its flattened arguments,
/// typed nullable boolean, whatever their number.
pub proof fn lemma_call_and(args: Seq<SpecTypedExpr>)
    ensures
        spec_call_function("and"@, args) == Ok::<SpecTypedExpr, Error>(
            SpecTypedExpr {
                expr: SpecExpr::CallVariadic {
                    func: VariadicFunc::And,
                    exprs: flat_args(VariadicFunc::And, exprs_of(args)),
                },
                typ: ColumnType::new_nullable(ConcreteDataType::Boolean),
            },
        ),
{
    reveal(spec_call_function);
    assert(VariadicFunc::spec_from_str("and"@) == Ok::<VariadicFunc, Error>(VariadicFunc::And));
    assert(spec_resolve("and"@, exprs_of(args), declared_types(args)) == Ok::<SpecResolved, Error>(
        SpecResolved::Variadic(VariadicFunc::And),
    ));
}

/// A conjunction of members that are no conjunctions, followed by one more
/// such member, flattens to the members followed by the new one.
proof fn lemma_flat_pair(inner: Seq<SpecExpr>, last: SpecExpr)
    requires
        forall|i: int| 0 <= i < inner.len() ==> !(#[trigger] inner[i]).is_call_of(VariadicFunc::And),
        !last.is_call_of(VariadicFunc::And),
    ensures
        flat_args(
            VariadicFunc::And,
            seq![SpecExpr::CallVariadic { func: VariadicFunc::And, exprs: inner }, last],
        ) == inner.push(last),
{
    let and = VariadicFunc::And;
    let joined = SpecExpr::CallVariadic { func: and, exprs: inner };
    let pair = seq![joined, last];
    lemma_flat_args_of_flat(and, inner);
    assert(pair.subrange(0, 1) =~= seq![joined]);
    assert(seq![joined].subrange(0, 0) =~= Seq::<SpecExpr>::empty());
    assert(flat_args(and, Seq::<SpecExpr>::empty()) =~= Seq::<SpecExpr>::empty());
    assert(seq![joined][0] == joined);
    assert(flat_args(and, seq![joined]) =~= inner);
    assert(pair[1] == last);
    assert(flat_args(and, pair) =~= inner.push(last));
}

/// The call of the function `and_ref` on the two value arguments `left` and
/// `right`.
#[verifier::opaque]
pub open spec fn and_node(and_ref: u32, left: SpecExpression, right: SpecExpression) -> SpecExpression {
    SpecExpression {
        rex_type: Some(
            SpecRexType::ScalarFunction(
                SpecScalarFunction {
                    function_reference: and_ref,
                    arguments: seq![
                        SpecFunctionArgument { arg_type: Some(SpecArgType::Value(left)) },
                        SpecFunctionArgument { arg_type: Some(SpecArgType::Value(right)) },
                    ],
                },
            ),
        ),
    }
}

/// The chain of two-argument calls of `and_ref` that joins `members`: the
/// first two members are joined, and each further member is joined to the
/// chain so far.
pub open spec fn and_chain(and_ref: u32, members: Seq<SpecExpression>) -> SpecExpression
    decreases members.len(),
{
    if members.len() == 0 {
        SpecExpression { rex_type: None }
    } else if members.len() == 1 {
        members[0]
    } else {
        and_node(and_ref, and_chain(and_ref, members.drop_last()), members.last())
    }
}

/// The translations of `members`, where each of them translates.
pub open spec fn translations(
    members: Seq<SpecExpression>,
    schema: Seq<ColumnType>,
    ext: Map<u32, Seq<char>>,
) -> Seq<SpecTypedExpr> {
    Seq::new(members.len(), |i: int| spec_rex(members[i], schema, ext)->Ok_0)
}

/// A call on two value arguments that translate is the call of the named
/// function on their translations.
#[verifier::rlimit(40)]
proof fn lemma_call_node(
    f: SpecScalarFunction,
    left: SpecExpression,
    right: SpecExpression,
    schema: Seq<ColumnType>,
    ext: Map<u32, Seq<char>>,
)
    requires
        f.arguments.len() == 2,
        f.arguments[0].arg_type == Some(SpecArgType::Value(left)),
        f.arguments[1].arg_type == Some(SpecArgType::Value(right)),
        ext.dom().contains(f.function_reference),
        spec_rex(left, schema, ext) is Ok,
        spec_rex(right, schema, ext) is Ok,
    ensures
        spec_scalar_func(f, schema, ext) == spec_call_function(
            ext[f.function_reference],
            seq![spec_rex(left, schema, ext)->Ok_0, spec_rex(right, schema, ext)->Ok_0],
        ),
{
    lemma_two_args(f.arguments, left, right, schema, ext);
}

/// A call of `and` on two value arguments that translate is the call of
/// the function on their translations.
#[verifier::rlimit(40)]
proof fn lemma_and_node(
    and_ref: u32,
    left: SpecExpression,
    right: SpecExpression,
    schema: Seq<ColumnType>,
    ext: Map<u32, Seq<char>>,
)
    requires
        ext.dom().contains(and_ref),
        ext[and_ref] == "and"@,
        spec_rex(left, schema, ext) is Ok,
        spec_rex(right, schema, ext) is Ok,
    ensures
        spec_rex(and_node(and_ref, left, right), schema, ext) == spec_call_function(
            "and"@,
            seq![spec_rex(left, schema, ext)->Ok_0, spec_rex(right, schema, ext)->Ok_0],
        ),
{
    reveal(and_node);
    let node = and_node(and_ref, left, right);
    let f = SpecScalarFunction {
        function_reference: and_ref,
        arguments: seq![
            SpecFunctionArgument { arg_type: Some(SpecArgType::Value(left)) },
            SpecFunctionArgument { arg_type: Some(SpecArgType::Value(right)) },
        ],
    };
    assert(node.rex_type == Some(SpecRexType::ScalarFunction(f)));
    assert(f.arguments.len() == 2);
    assert(f.arguments[0].arg_type == Some(SpecArgType::Value(left)));
    assert(f.arguments[1].arg_type == Some(SpecArgType::Value(right)));
    lemma_call_node(f, left, right, schema, ext);
    lemma_rex_of_function(node, f, schema, ext);
}

/// The translation of a scalar function node is that of its call.
proof fn lemma_rex_of_function(
    e: SpecExpression,
    f: SpecScalarFunction,
    schema: Seq<ColumnType>,
    ext: Map<u32, Seq<char>>,
)
    requires
        e.rex_type == Some(SpecRexType::ScalarFunction(f)),
    ensures
        spec_rex(e, schema, ext) == spec_scalar_func(f, schema, ext),
{
}

/// The conjunction of `exprs`, typed nullable boolean.
pub open spec fn conjunction_of(exprs: Seq<SpecExpr>) -> SpecTypedExpr {
    SpecTypedExpr {
        expr: SpecExpr::CallVariadic { func: VariadicFunc::And, exprs },
        typ: ColumnType::new_nullable(ConcreteDataType::Boolean),
    }
}

/// Two expressions that translate, joined by `and`, translate to the
/// conjunction of their flattened translations.
#[verifier::rlimit(40)]
proof fn lemma_and_of_two(
    and_ref: u32,
    first: SpecExpression,
    last: SpecExpression,
    schema: Seq<ColumnType>,
    ext: Map<u32, Seq<char>>,
)
    requires
        ext.dom().contains(and_ref),
        ext[and_ref] == "and"@,
        spec_rex(first, schema, ext) is Ok,
        spec_rex(last, schema, ext) is Ok,
    ensures
        spec_rex(and_node(and_ref, first, last), schema, ext) == Ok::<SpecTypedExpr, Error>(
            conjunction_of(
                flat_args(
                    VariadicFunc::And,
                    seq![
                        spec_rex(first, schema, ext)->Ok_0.expr,
                        spec_rex(last, schema, ext)->Ok_0.expr,
                    ],
                ),
            ),
        ),
{
    lemma_and_of_pair(and_ref, first, last, schema, ext);
    lemma_exprs_of_pair(spec_rex(first, schema, ext)->Ok_0, spec_rex(last, schema, ext)->Ok_0);
}

/// Two expressions that translate, joined by `and`, translate to the
/// conjunction of the flattened expressions of their translations.
#[verifier::rlimit(40)]
proof fn lemma_and_of_pair(
    and_ref: u32,
    first: SpecExpression,
    last: SpecExpression,
    schema: Seq<ColumnType>,
    ext: Map<u32, Seq<char>>,
)
    requires
        ext.dom().contains(and_ref),
        ext[and_ref] == "and"@,
        spec_rex(first, schema, ext) is Ok,
        spec_rex(last, schema, ext) is Ok,
    ensures
        spec_rex(and_node(and_ref, first, last), schema, ext) == Ok::<SpecTypedExpr, Error>(
            conjunction_of(
                flat_args(
                    VariadicFunc::And,
                    exprs_of(
                        seq![spec_rex(first, schema, ext)->Ok_0, spec_rex(last, schema, ext)->Ok_0],
                    ),
                ),
            ),
        ),
{
    let t_first = spec_rex(first, schema, ext)->Ok_0;
    let t_last = spec_rex(last, schema, ext)->Ok_0;
    lemma_and_node(and_ref, first, last, schema, ext);
    lemma_call_and(seq![t_first, t_last]);
}

/// Two expressions that are no conjunctions are flat as they are.
proof fn lemma_flat_two(a: SpecExpr, b: SpecExpr)
    requires
        !a.is_call_of(VariadicFunc::And),
        !b.is_call_of(VariadicFunc::And),
    ensures
        flat_args(VariadicFunc::And, seq![a, b]) == seq![a, b],
{
    let exprs = seq![a, b];
    assert forall|i: int| 0 <= i < exprs.len() implies !(#[trigger] exprs[i]).is_call_of(
        VariadicFunc::And,
    ) by {
        if i == 0 {
        } else {
            assert(exprs[i] == b);
        }
    }
    lemma_flat_args_of_flat(VariadicFunc::And, exprs);
}

/// The expressions of a pair of typed expressions.
proof fn lemma_exprs_of_pair(a: SpecTypedExpr, b: SpecTypedExpr)
    ensures
        exprs_of(seq![a, b]) == seq![a.expr, b.expr],
{
    assert(exprs_of(seq![a, b]) =~= seq![a.expr, b.expr]);
}

/// The translated members of a chain of two.
proof fn lemma_translations_two(
    members: Seq<SpecExpression>,
    schema: Seq<ColumnType>,
    ext: Map<u32, Seq<char>>,
)
    requires
        members.len() == 2,
    ensures
        exprs_of(translations(members, schema, ext)) == seq![
            spec_rex(members[0], schema, ext)->Ok_0.expr,
            spec_rex(members[1], schema, ext)->Ok_0.expr,
        ],
{
    assert(exprs_of(translations(members, schema, ext)) =~= seq![
        spec_rex(members[0], schema, ext)->Ok_0.expr,
        spec_rex(members[1], schema, ext)->Ok_0.expr,
    ]);
}

/// The translated members of a chain are those of the chain without its
/// last member, and the translation of that member.
proof fn lemma_translations_push(
    members: Seq<SpecExpression>,
    schema: Seq<ColumnType>,
    ext: Map<u32, Seq<char>>,
)
    requires
        members.len() > 0,
    ensures
        exprs_of(translations(members, schema, ext)) == exprs_of(
            translations(members.drop_last(), schema, ext),
        ).push(spec_rex(members[members.len() - 1], schema, ext)->Ok_0.expr),
{
    assert(exprs_of(translations(members, schema, ext)) =~= exprs_of(
        translations(members.drop_last(), schema, ext),
    ).push(spec_rex(members[members.len() - 1], schema, ext)->Ok_0.expr));
}

/// Two expressions that are no conjunctions, joined by `and`, translate to
/// the conjunction of the two.
#[verifier::rlimit(40)]
proof fn lemma_chain_base(
    and_ref: u32,
    first: SpecExpression,
    last: SpecExpression,
    schema: Seq<ColumnType>,
    ext: Map<u32, Seq<char>>,
)
    requires
        ext.dom().contains(and_ref),
        ext[and_ref] == "and"@,
        spec_rex(first, schema, ext) is Ok,
        spec_rex(last, schema, ext) is Ok,
        !spec_rex(first, schema, ext)->Ok_0.expr.is_call_of(VariadicFunc::And),
        !spec_rex(last, schema, ext)->Ok_0.expr.is_call_of(VariadicFunc::And),
    ensures
        spec_rex(and_node(and_ref, first, last), schema, ext) == Ok::<SpecTypedExpr, Error>(
            conjunction_of(
                seq![
                    spec_rex(first, schema, ext)->Ok_0.expr,
                    spec_rex(last, schema, ext)->Ok_0.expr,
                ],
            ),
        ),
{
    lemma_and_of_two(and_ref, first, last, schema, ext);
    lemma_flat_two(
        spec_rex(first, schema, ext)->Ok_0.expr,
        spec_rex(last, schema, ext)->Ok_0.expr,
    );
}

/// A conjunction of members that are no conjunctions, joined by `and` to
/// one more such expression, translates to the conjunction of the members
/// and the new one.
#[verifier::rlimit(40)]
proof fn lemma_chain_step(
    and_ref: u32,
    chain: SpecExpression,
    last: SpecExpression,
    inner: Seq<SpecExpr>,
    schema: Seq<ColumnType>,
    ext: Map<u32, Seq<char>>,
)
    requires
        ext.dom().contains(and_ref),
        ext[and_ref] == "and"@,
        spec_rex(chain, schema, ext) == Ok::<SpecTypedExpr, Error>(conjunction_of(inner)),
        forall|i: int| 0 <= i < inner.len() ==> !(#[trigger] inner[i]).is_call_of(VariadicFunc::And),
        spec_rex(last, schema, ext) is Ok,
        !spec_rex(last, schema, ext)->Ok_0.expr.is_call_of(VariadicFunc::And),
    ensures
        spec_rex(and_node(and_ref, chain, last), schema, ext) == Ok::<SpecTypedExpr, Error>(
            conjunction_of(inner.push(spec_rex(last, schema, ext)->Ok_0.expr)),
        ),
{
    lemma_and_of_two(and_ref, chain, last, schema, ext);
    lemma_flat_pair(inner, spec_rex(last, schema, ext)->Ok_0.expr);
}

/// The members of a chain without the last keep what holds of all members.
proof fn lemma_front_members(
    members: Seq<SpecExpression>,
    schema: Seq<ColumnType>,
    ext: Map<u32, Seq<char>>,
)
    requires
        members.len() > 0,
        forall|i: int|
            0 <= i < members.len() ==> (#[trigger] spec_rex(members[i], schema, ext)) is Ok
                && !spec_rex(members[i], schema, ext)->Ok_0.expr.is_call_of(VariadicFunc::And),
    ensures
        forall|i: int|
            0 <= i < members.drop_last().len() ==> (#[trigger] spec_rex(
                members.drop_last()[i],
                schema,
                ext,
            )) is Ok && !spec_rex(members.drop_last()[i], schema, ext)->Ok_0.expr.is_call_of(
                VariadicFunc::And,
            ),
        forall|i: int|
            0 <= i < members.drop_last().len() ==> !(#[trigger] exprs_of(
                translations(members.drop_last(), schema, ext),
            )[i]).is_call_of(VariadicFunc::And),
        spec_rex(members[members.len() - 1], schema, ext) is Ok,
        !spec_rex(members[members.len() - 1], schema, ext)->Ok_0.expr.is_call_of(VariadicFunc::And),
        spec_rex(members[0], schema, ext) is Ok,
        !spec_rex(members[0], schema, ext)->Ok_0.expr.is_call_of(VariadicFunc::And),
{
    let front = members.drop_last();
    assert forall|i: int| 0 <= i < front.len() implies (#[trigger] spec_rex(front[i], schema, ext))
        is Ok && !spec_rex(front[i], schema, ext)->Ok_0.expr.is_call_of(VariadicFunc::And) by {
        assert(front[i] == members[i]);
        assert(spec_rex(members[i], schema, ext) is Ok);
    }
    assert forall|i: int| 0 <= i < front.len() implies !(#[trigger] exprs_of(
        translations(front, schema, ext),
    )[i]).is_call_of(VariadicFunc::And) by {
        assert(spec_rex(front[i], schema, ext) is Ok);
    }
    assert(spec_rex(members[members.len() - 1], schema, ext) is Ok);
    assert(spec_rex(members[0], schema, ext) is Ok);
}

/// A chain of two or more expressions joined by `and`, each of which
/// translates and none of which translates to a conjunction, translates to
/// one variadic conjunction of the translated members, in order, typed
/// nullable boolean: never to nested conjunctions.
#[verifier::rlimit(40)]
pub proof fn law_conjunction_chain(
    and_ref: u32,
    members: Seq<SpecExpression>,
    schema: Seq<ColumnType>,
    ext: Map<u32, Seq<char>>,
)
    requires
        members.len() >= 2,
        ext.dom().contains(and_ref),
        ext[and_ref] == "and"@,
        forall|i: int|
            0 <= i < members.len() ==> (#[trigger] spec_rex(members[i], schema, ext)) is Ok
                && !spec_rex(members[i], schema, ext)->Ok_0.expr.is_call_of(VariadicFunc::And),
    ensures
        spec_rex(and_chain(and_ref, members), schema, ext) == Ok::<SpecTypedExpr, Error>(
            conjunction_of(exprs_of(translations(members, schema, ext))),
        ),
    decreases members.len(),
{
    let front = members.drop_last();
    let last = members[members.len() - 1];
    lemma_front_members(members, schema, ext);
    if members.len() == 2 {
        lemma_chain_base(and_ref, members[0], last, schema, ext);
        lemma_translations_two(members, schema, ext);
    } else {
        law_conjunction_chain(and_ref, front, schema, ext);
        lemma_chain_step(
            and_ref,
            and_chain(and_ref, front),
            last,
            exprs_of(translations(front, schema, ext)),
            schema,
            ext,
        );
        lemma_translations_push(members, schema, ext);
    }
}

} // verus!
