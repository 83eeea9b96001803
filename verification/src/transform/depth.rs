//! A bound on the nesting of an expression tree, and translation under
//! such a bound.
//!
//! Translation descends into the arguments of a call, the clauses and the
//! else branch of an if-then chain, the input of a cast and the value of a
//! value wrapper, once for each level of nesting. A tree of unbounded
//! nesting can exhaust the call stack; the bound is checked first, in a
//! descent that stops at the bound.

use vstd::prelude::*;
use crate::error::view_result;
use crate::error::Error;
use crate::expr::scalar::TypedExpr;
use crate::proto::ArgType;
use crate::proto::Expression;
use crate::proto::FunctionExtensions;
use crate::proto::IfClause;
use crate::proto::RexType;
use crate::proto::SpecArgType;
use crate::proto::SpecExpression;
use crate::proto::SpecFunctionArgument;
use crate::proto::SpecIfClause;
use crate::proto::SpecRexType;
use crate::repr::RelationType;
use crate::transform::expr::spec_rex;

verus! {

/// Whether translation of `e` descends at most `limit` levels, the level of
/// `e` itself counted.
pub open spec fn nesting_within(e: SpecExpression, limit: nat) -> bool
    decreases e,
{
    limit > 0 && match e.rex_type {
        Some(SpecRexType::ScalarFunction(f)) => forall|i: int|
            0 <= i < f.arguments.len() ==> argument_within(
                #[trigger] f.arguments[i],
                (limit - 1) as nat,
            ),
        Some(SpecRexType::IfThen(if_then)) => {
            &&& forall|i: int|
                0 <= i < if_then.ifs.len() ==> clause_within(
                    #[trigger] if_then.ifs[i],
                    (limit - 1) as nat,
                )
            &&& if_then.els matches Some(e) ==> nesting_within(*e, (limit - 1) as nat)
        },
        Some(SpecRexType::Cast(cast)) => cast.input matches Some(e) ==> nesting_within(
            *e,
            (limit - 1) as nat,
        ),
        Some(SpecRexType::SingularOrList(s)) => s.value matches Some(e) ==> nesting_within(
            *e,
            (limit - 1) as nat,
        ),
        _ => true,
    }
}

/// Whether the value of an argument, if it is one, nests within `limit`.
pub open spec fn argument_within(arg: SpecFunctionArgument, limit: nat) -> bool
    decreases arg,
{
    arg.arg_type matches Some(SpecArgType::Value(e)) ==> nesting_within(e, limit)
}

/// Whether the two parts of a clause, as far as they are there, nest within
/// `limit`.
pub open spec fn clause_within(clause: SpecIfClause, limit: nat) -> bool
    decreases clause,
{
    match clause {
        SpecIfClause { cond, then: chosen } => {
            &&& cond matches Some(e) ==> nesting_within(e, limit)
            &&& chosen matches Some(e) ==> nesting_within(e, limit)
        },
    }
}

/// A tree that nests within a limit nests within every greater one.
pub proof fn law_nesting_monotone(e: SpecExpression, limit: nat, greater: nat)
    requires
        nesting_within(e, limit),
        limit <= greater,
    ensures
        nesting_within(e, greater),
    decreases e,
{
    match e.rex_type {
        Some(SpecRexType::ScalarFunction(f)) => {
            assert forall|i: int| 0 <= i < f.arguments.len() implies argument_within(
                #[trigger] f.arguments[i],
                (greater - 1) as nat,
            ) by {
                assert(argument_within(f.arguments[i], (limit - 1) as nat));
                match f.arguments[i].arg_type {
                    Some(SpecArgType::Value(a)) => {
                        law_nesting_monotone(a, (limit - 1) as nat, (greater - 1) as nat);
                    },
                    _ => {},
                }
            }
        },
        Some(SpecRexType::IfThen(if_then)) => {
            assert forall|i: int| 0 <= i < if_then.ifs.len() implies clause_within(
                #[trigger] if_then.ifs[i],
                (greater - 1) as nat,
            ) by {
                assert(clause_within(if_then.ifs[i], (limit - 1) as nat));
                match if_then.ifs[i] {
                    SpecIfClause { cond, then: chosen } => {
                        match cond {
                            Some(c) => {
                                law_nesting_monotone(c, (limit - 1) as nat, (greater - 1) as nat);
                            },
                            None => {},
                        }
                        match chosen {
                            Some(t) => {
                                law_nesting_monotone(t, (limit - 1) as nat, (greater - 1) as nat);
                            },
                            None => {},
                        }
                    },
                }
            }
            match if_then.els {
                Some(x) => {
                    law_nesting_monotone(*x, (limit - 1) as nat, (greater - 1) as nat);
                },
                None => {},
            }
        },
        Some(SpecRexType::Cast(cast)) => {
            match cast.input {
                Some(x) => {
                    law_nesting_monotone(*x, (limit - 1) as nat, (greater - 1) as nat);
                },
                None => {},
            }
        },
        Some(SpecRexType::SingularOrList(s)) => {
            match s.value {
                Some(x) => {
                    law_nesting_monotone(*x, (limit - 1) as nat, (greater - 1) as nat);
                },
                None => {},
            }
        },
        _ => {},
    }
}

fn option_within(e: &Option<Expression>, limit: usize) -> (r: bool)
    ensures
        r == (e matches Some(x) ==> nesting_within(x@, limit as nat)),
    decreases limit, 1nat,
{
    match e {
        Some(x) => nesting_is_within(x, limit),
        None => true,
    }
}

fn boxed_within(e: &Option<Box<Expression>>, limit: usize) -> (r: bool)
    ensures
        r == (e matches Some(x) ==> nesting_within((*x)@, limit as nat)),
    decreases limit, 1nat,
{
    match e {
        Some(x) => nesting_is_within(x, limit),
        None => true,
    }
}

/// Whether translation of `e` descends at most `limit` levels. The test
/// itself descends no deeper than `limit`.
#[verifier::loop_isolation(false)]
pub fn nesting_is_within(e: &Expression, limit: usize) -> (r: bool)
    ensures
        r == nesting_within(e@, limit as nat),
    decreases limit, 0nat,
{
    if limit == 0 {
        return false;
    }
    let below = limit - 1;
    match &e.rex_type {
        Some(RexType::ScalarFunction(f)) => {
            assert(e@.rex_type == Some(SpecRexType::ScalarFunction(f@)));
            let mut i: usize = 0;
            while i < f.arguments.len()
                invariant
                    i <= f.arguments@.len(),
                    f@.arguments.len() == f.arguments@.len(),
                    forall|j: int|
                        0 <= j < i ==> argument_within(#[trigger] f@.arguments[j], below as nat),
                decreases f.arguments@.len() - i,
            {
                assert(f@.arguments[i as int] == f.arguments@[i as int].model());
                let ok = match &f.arguments[i].arg_type {
                    Some(ArgType::Value(a)) => {
                        assert(f@.arguments[i as int].arg_type == Some(SpecArgType::Value(a@))) by {
                            assert(f.arguments@[i as int].arg_type->Some_0.model()
                                == SpecArgType::Value(a@));
                        }
                        nesting_is_within(a, below)
                    },
                    Some(ArgType::Other) => {
                        assert(f@.arguments[i as int].arg_type == Some(SpecArgType::Other)) by {
                            assert(f.arguments@[i as int].arg_type->Some_0.model()
                                == SpecArgType::Other);
                        }
                        true
                    },
                    None => true,
                };
                if !ok {
                    proof {
                        assert(below as nat == (limit as nat - 1) as nat);
                        if nesting_within(e@, limit as nat) {
                            let called = e@.rex_type->Some_0->ScalarFunction_0;
                            assert(e@.rex_type is Some);
                            assert(e@.rex_type->Some_0 is ScalarFunction);
                            assert(called == f@);
                            assert(forall|j: int|
                                0 <= j < called.arguments.len() ==> argument_within(
                                    #[trigger] called.arguments[j],
                                    (limit as nat - 1) as nat,
                                ));
                            assert(argument_within(
                                f@.arguments[i as int],
                                (limit as nat - 1) as nat,
                            ));
                        }
                    }
                    return false;
                }
                i = i + 1;
            }
            true
        },
        Some(RexType::IfThen(if_then)) => {
            assert(e@.rex_type == Some(SpecRexType::IfThen(Box::new((**if_then)@))));
            let mut i: usize = 0;
            while i < if_then.ifs.len()
                invariant
                    i <= if_then.ifs@.len(),
                    if_then@.ifs.len() == if_then.ifs@.len(),
                    forall|j: int|
                        0 <= j < i ==> clause_within(#[trigger] if_then@.ifs[j], below as nat),
                decreases if_then.ifs@.len() - i,
            {
                assert(if_then@.ifs[i as int] == if_then.ifs@[i as int].model());
                let ok = match &if_then.ifs[i] {
                    IfClause { cond, then: chosen } => {
                        assert(if_then@.ifs[i as int] == (SpecIfClause {
                            cond: match *cond {
                                Some(c) => Some(c@),
                                None => None,
                            },
                            then: match *chosen {
                                Some(t) => Some(t@),
                                None => None,
                            },
                        }));
                        option_within(cond, below) && option_within(chosen, below)
                    },
                };
                if !ok {
                    proof {
                        assert(below as nat == (limit as nat - 1) as nat);
                        if nesting_within(e@, limit as nat) {
                            assert(clause_within(
                                if_then@.ifs[i as int],
                                (limit as nat - 1) as nat,
                            ));
                        }
                    }
                    return false;
                }
                i = i + 1;
            }
            assert(if_then@.els == match if_then.els {
                Some(x) => Some(Box::new((*x)@)),
                None => None,
            });
            boxed_within(&if_then.els, below)
        },
        Some(RexType::Cast(cast)) => {
            assert(e@.rex_type == Some(SpecRexType::Cast(Box::new((**cast).model()))));
            assert((**cast).model().input == match cast.input {
                Some(x) => Some(Box::new((*x)@)),
                None => None,
            });
            boxed_within(&cast.input, below)
        },
        Some(RexType::SingularOrList(s)) => {
            assert(e@.rex_type == Some(SpecRexType::SingularOrList(Box::new((**s).model()))));
            assert((**s).model().value == match s.value {
                Some(x) => Some(Box::new((*x)@)),
                None => None,
            });
            boxed_within(&s.value, below)
        },
        Some(RexType::Literal(_)) => true,
        Some(RexType::Selection(_)) => true,
        Some(RexType::WindowFunction(_)) => true,
        Some(RexType::Other) => true,
        None => true,
    }
}

impl TypedExpr {
    /// Translates an expression node that nests within `max_depth` levels,
    /// and fails with `UnsupportedFeature` on one that nests deeper, without
    /// descending into it beyond that depth.
    pub fn from_substrait_rex_within(
        e: &Expression,
        input_schema: &RelationType,
        extensions: &FunctionExtensions,
        max_depth: usize,
    ) -> (r: Result<TypedExpr, Error>)
        ensures
            view_result(r) == if nesting_within(e@, max_depth as nat) {
                spec_rex(e@, input_schema@, extensions@)
            } else {
                Err(Error::UnsupportedFeature)
            },
    {
        if nesting_is_within(e, max_depth) {
            TypedExpr::from_substrait_rex(e, input_schema, extensions)
        } else {
            Err(Error::UnsupportedFeature)
        }
    }
}

} // verus!
