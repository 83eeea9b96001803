//! Evaluation of binary functions on two constant operands.

use vstd::prelude::*;
use vstd::utf8::encode_utf8;
use crate::datatypes::ConcreteDataType;
use crate::datatypes::SpecValue;
use crate::datatypes::Value;
use crate::error::view_result;
use crate::error::Error;
use crate::expr::func::BinaryFunc;
use crate::expr::func::GenericFn;
use crate::text::str_eq;

verus! {

/// The sign of `n`: -1, 0 or 1.
pub open spec fn sign(n: int) -> int {
    if n < 0 {
        -1
    } else if n == 0 {
        0
    } else {
        1
    }
}

/// The order of two byte strings, as -1, 0 or 1: the first position at which
/// they differ decides, and a proper prefix comes first.
pub open spec fn lex_order(a: Seq<u8>, b: Seq<u8>) -> int
    decreases a.len(),
{
    if a.len() == 0 {
        if b.len() == 0 {
            0
        } else {
            -1
        }
    } else if b.len() == 0 {
        1
    } else if a[0] != b[0] {
        sign(a[0] - b[0])
    } else {
        lex_order(a.drop_first(), b.drop_first())
    }
}

/// The order of two values, as -1, 0 or 1, where they can be ordered: two
/// values of one type, strings by their UTF-8 bytes, `false` before `true`.
/// Values of different types have no order.
pub open spec fn spec_order(l: SpecValue, r: SpecValue) -> Option<int> {
    match (l, r) {
        (SpecValue::Null, SpecValue::Null) => Some(0),
        (SpecValue::Boolean(a), SpecValue::Boolean(b)) => Some(
            sign((if a { 1int } else { 0int }) - (if b { 1int } else { 0int })),
        ),
        (SpecValue::Integer { typ: t1, value: a }, SpecValue::Integer { typ: t2, value: b }) => if t1
            == t2 {
            Some(sign(a - b))
        } else {
            None
        },
        (SpecValue::String(a), SpecValue::String(b)) => Some(
            lex_order(encode_utf8(a), encode_utf8(b)),
        ),
        (SpecValue::Date(a), SpecValue::Date(b)) => Some(sign(a - b)),
        (SpecValue::DateTime(a), SpecValue::DateTime(b)) => Some(sign(a - b)),
        _ => None,
    }
}

/// The quotient of `x` by `d`, rounded towards zero.
pub open spec fn trunc_div(x: int, d: int) -> int {
    if x == 0 {
        0
    } else if x > 0 && d > 0 {
        x / d
    } else if x < 0 && d < 0 {
        ((x * -1) / (d * -1))
    } else if x < 0 {
        ((x * -1) / d) * -1
    } else {
        (x / (d * -1)) * -1
    }
}

/// The remainder of `x` by `d` that goes with [`trunc_div`]: it has the sign
/// of `x`.
pub open spec fn trunc_rem(x: int, d: int) -> int {
    if x == 0 {
        0
    } else if x > 0 && d > 0 {
        x % d
    } else if x < 0 && d < 0 {
        ((x * -1) % (d * -1)) * -1
    } else if x < 0 {
        ((x * -1) % d) * -1
    } else {
        x % (d * -1)
    }
}

/// The exact result of an arithmetic function on two integers, and `None`
/// for a division or a remainder by zero.
#[verifier::opaque]
pub open spec fn spec_arith(op: GenericFn, a: int, b: int) -> Option<int> {
    match op {
        GenericFn::Add => Some(a + b),
        GenericFn::Sub => Some(a - b),
        GenericFn::Mul => Some(a * b),
        GenericFn::Div => if b == 0 {
            None
        } else {
            Some(trunc_div(a, b))
        },
        GenericFn::Mod => if b == 0 {
            None
        } else {
            Some(trunc_rem(a, b))
        },
        _ => None,
    }
}

impl BinaryFunc {
    /// The result of the function on two constants.
    ///
    /// Equality holds of equal values and of no others. An order comparison
    /// needs two values that can be ordered. An arithmetic function needs two
    /// integers of its own type, and a result that this type holds. Every
    /// other case is an `EvalError`.
    pub open spec fn spec_eval(self, l: SpecValue, r: SpecValue) -> Result<SpecValue, Error> {
        match self {
            BinaryFunc::Eq => Ok(SpecValue::Boolean(l == r)),
            BinaryFunc::NotEq => Ok(SpecValue::Boolean(l != r)),
            BinaryFunc::Lt => match spec_order(l, r) {
                Some(c) => Ok(SpecValue::Boolean(c < 0)),
                None => Err(Error::EvalError),
            },
            BinaryFunc::Lte => match spec_order(l, r) {
                Some(c) => Ok(SpecValue::Boolean(c <= 0)),
                None => Err(Error::EvalError),
            },
            BinaryFunc::Gt => match spec_order(l, r) {
                Some(c) => Ok(SpecValue::Boolean(c > 0)),
                None => Err(Error::EvalError),
            },
            BinaryFunc::Gte => match spec_order(l, r) {
                Some(c) => Ok(SpecValue::Boolean(c >= 0)),
                None => Err(Error::EvalError),
            },
            _ => match (l, r) {
                (
                    SpecValue::Integer { typ: t1, value: a },
                    SpecValue::Integer { typ: t2, value: b },
                ) => if t1 == self.operand_type() && t2 == self.operand_type() {
                    match spec_arith(self.generic_fn(), a, b) {
                        Some(n) => if t1.holds(n) {
                            Ok(SpecValue::Integer { typ: t1, value: n })
                        } else {
                            Err(Error::EvalError)
                        },
                        None => Err(Error::EvalError),
                    }
                } else {
                    Err(Error::EvalError)
                },
                _ => Err(Error::EvalError),
            },
        }
    }

    /// Evaluates the function on two constants.
    ///
    /// Fails with `EvalError` on operands that the function does not take,
    /// on a division or a remainder by zero, and on a result that the
    /// operand type does not hold.
    pub fn eval(&self, left: &Value, right: &Value) -> (r: Result<Value, Error>)
        ensures
            view_result(r) == self.spec_eval(left@, right@),
    {
        match self {
            BinaryFunc::Eq => Ok(Value::Boolean(values_equal(left, right))),
            BinaryFunc::NotEq => Ok(Value::Boolean(!values_equal(left, right))),
            BinaryFunc::Lt => match order_values(left, right) {
                Some(c) => Ok(Value::Boolean(c < 0)),
                None => Err(Error::EvalError),
            },
            BinaryFunc::Lte => match order_values(left, right) {
                Some(c) => Ok(Value::Boolean(c <= 0)),
                None => Err(Error::EvalError),
            },
            BinaryFunc::Gt => match order_values(left, right) {
                Some(c) => Ok(Value::Boolean(c > 0)),
                None => Err(Error::EvalError),
            },
            BinaryFunc::Gte => match order_values(left, right) {
                Some(c) => Ok(Value::Boolean(c >= 0)),
                None => Err(Error::EvalError),
            },
            BinaryFunc::Add(t) => arith_values(GenericFn::Add, *t, left, right),
            BinaryFunc::Sub(t) => arith_values(GenericFn::Sub, *t, left, right),
            BinaryFunc::Mul(t) => arith_values(GenericFn::Mul, *t, left, right),
            BinaryFunc::Div(t) => arith_values(GenericFn::Div, *t, left, right),
            BinaryFunc::Mod(t) => arith_values(GenericFn::Mod, *t, left, right),
        }
    }
}

/// Whether two values are equal.
pub fn values_equal(left: &Value, right: &Value) -> (r: bool)
    ensures
        r == (left@ == right@),
{
    match (left, right) {
        (Value::Null, Value::Null) => true,
        (Value::Boolean(a), Value::Boolean(b)) => *a == *b,
        (Value::Int8(a), Value::Int8(b)) => *a == *b,
        (Value::Int16(a), Value::Int16(b)) => *a == *b,
        (Value::Int32(a), Value::Int32(b)) => *a == *b,
        (Value::Int64(a), Value::Int64(b)) => *a == *b,
        (Value::UInt8(a), Value::UInt8(b)) => *a == *b,
        (Value::UInt16(a), Value::UInt16(b)) => *a == *b,
        (Value::UInt32(a), Value::UInt32(b)) => *a == *b,
        (Value::UInt64(a), Value::UInt64(b)) => *a == *b,
        (Value::String(a), Value::String(b)) => str_eq(a.as_str(), b.as_str()),
        (Value::Date(a), Value::Date(b)) => *a == *b,
        (Value::DateTime(a), Value::DateTime(b)) => *a == *b,
        _ => false,
    }
}

fn sign_of(a: i128, b: i128) -> (r: i8)
    ensures
        r == sign(a - b),
{
    if a < b {
        -1
    } else if a == b {
        0
    } else {
        1
    }
}

/// The order of two byte strings, as -1, 0 or 1.
pub fn order_bytes(a: &[u8], b: &[u8]) -> (r: i8)
    ensures
        r == lex_order(a@, b@),
{
    let mut i: usize = 0;
    assert(a@.skip(0) =~= a@ && b@.skip(0) =~= b@);
    while i < a.len() && i < b.len()
        invariant
            i <= a@.len(),
            i <= b@.len(),
            lex_order(a@, b@) == lex_order(a@.skip(i as int), b@.skip(i as int)),
        decreases a@.len() - i,
    {
        let ghost sa = a@.skip(i as int);
        let ghost sb = b@.skip(i as int);
        assert(sa[0] == a@[i as int] && sb[0] == b@[i as int]);
        assert(sa.drop_first() =~= a@.skip(i + 1));
        assert(sb.drop_first() =~= b@.skip(i + 1));
        if a[i] != b[i] {
            return if a[i] < b[i] {
                -1
            } else {
                1
            };
        }
        i = i + 1;
    }
    if i < b.len() {
        -1
    } else if i < a.len() {
        1
    } else {
        0
    }
}

/// The order of two values, as -1, 0 or 1, and `None` where they have none.
pub fn order_values(left: &Value, right: &Value) -> (r: Option<i8>)
    ensures
        match r {
            Some(c) => spec_order(left@, right@) == Some(c as int),
            None => spec_order(left@, right@) is None,
        },
{
    match (left, right) {
        (Value::Null, Value::Null) => Some(0),
        (Value::Boolean(a), Value::Boolean(b)) => {
            let x: i128 = if *a { 1 } else { 0 };
            let y: i128 = if *b { 1 } else { 0 };
            Some(sign_of(x, y))
        },
        (Value::String(a), Value::String(b)) => Some(
            order_bytes(a.as_str().as_bytes(), b.as_str().as_bytes()),
        ),
        (Value::Date(a), Value::Date(b)) => Some(sign_of(*a as i128, *b as i128)),
        (Value::DateTime(a), Value::DateTime(b)) => Some(sign_of(*a as i128, *b as i128)),
        _ => match (left.as_integer(), right.as_integer()) {
            (Some(a), Some(b)) => if left.data_type() == right.data_type() {
                Some(sign_of(a, b))
            } else {
                None
            },
            _ => None,
        },
    }
}

/// The exact result of an arithmetic function on two 64-bit operands.
fn arith(op: GenericFn, a: i128, b: i128) -> (r: Option<i128>)
    requires
        -0x8000_0000_0000_0000 <= a <= 0xffff_ffff_ffff_ffff,
        -0x8000_0000_0000_0000 <= b <= 0xffff_ffff_ffff_ffff,
    ensures
        match r {
            Some(n) => spec_arith(op, a as int, b as int) == Some(n as int),
            None => match spec_arith(op, a as int, b as int) {
                Some(n) => n > 0xffff_ffff_ffff_ffff || n < -0x8000_0000_0000_0000,
                None => true,
            },
        },
{
    proof {
        reveal(spec_arith);
    }
    match op {
        GenericFn::Add => Some(a + b),
        GenericFn::Sub => Some(a - b),
        GenericFn::Mul => {
            let p = a.checked_mul(b);
            proof {
                if p is None {
                    assert(a * b > 0xffff_ffff_ffff_ffff || a * b < -0x8000_0000_0000_0000);
                }
            }
            p
        },
        GenericFn::Div => if b == 0 {
            None
        } else {
            proof {
                lemma_trunc_div_bound(a as int, b as int);
            }
            a.checked_div(b)
        },
        GenericFn::Mod => if b == 0 {
            None
        } else {
            proof {
                lemma_trunc_rem_bound(a as int, b as int);
            }
            a.checked_rem(b)
        },
        _ => None,
    }
}

/// A quotient rounded towards zero is no larger in magnitude than the
/// dividend.
pub proof fn lemma_trunc_div_bound(x: int, d: int)
    requires
        d != 0,
    ensures
        x >= 0 ==> -x <= trunc_div(x, d) <= x,
        x <= 0 ==> x <= trunc_div(x, d) <= -x,
{
    if x > 0 && d > 0 {
        vstd::arithmetic::div_mod::lemma_div_nonincreasing(x, d);
        vstd::arithmetic::div_mod::lemma_div_pos_is_pos(x, d);
    } else if x < 0 && d < 0 {
        vstd::arithmetic::div_mod::lemma_div_nonincreasing(-x, -d);
        vstd::arithmetic::div_mod::lemma_div_pos_is_pos(-x, -d);
    } else if x < 0 {
        vstd::arithmetic::div_mod::lemma_div_nonincreasing(-x, d);
        vstd::arithmetic::div_mod::lemma_div_pos_is_pos(-x, d);
    } else if x > 0 {
        vstd::arithmetic::div_mod::lemma_div_nonincreasing(x, -d);
        vstd::arithmetic::div_mod::lemma_div_pos_is_pos(x, -d);
    }
}

/// A remainder that goes with a quotient rounded towards zero is smaller in
/// magnitude than the divisor, and no larger than the dividend.
pub proof fn lemma_trunc_rem_bound(x: int, d: int)
    requires
        d != 0,
    ensures
        x >= 0 ==> 0 <= trunc_rem(x, d) <= x,
        x <= 0 ==> x <= trunc_rem(x, d) <= 0,
{
    if x > 0 && d > 0 {
        vstd::arithmetic::div_mod::lemma_mod_decreases(x as nat, d as nat);
    } else if x < 0 && d < 0 {
        vstd::arithmetic::div_mod::lemma_mod_decreases((-x) as nat, (-d) as nat);
    } else if x < 0 {
        vstd::arithmetic::div_mod::lemma_mod_decreases((-x) as nat, d as nat);
    } else if x > 0 {
        vstd::arithmetic::div_mod::lemma_mod_decreases(x as nat, (-d) as nat);
    }
}

/// Applies an arithmetic function of operand type `typ` to two values.
fn arith_values(op: GenericFn, typ: ConcreteDataType, left: &Value, right: &Value) -> (r: Result<
    Value,
    Error,
>)
    requires
        op.is_arithmetic(),
    ensures
        view_result(r) == match (left@, right@) {
            (
                SpecValue::Integer { typ: t1, value: a },
                SpecValue::Integer { typ: t2, value: b },
            ) => if t1 == typ && t2 == typ {
                match spec_arith(op, a, b) {
                    Some(n) => if t1.holds(n) {
                        Ok(SpecValue::Integer { typ: t1, value: n })
                    } else {
                        Err(Error::EvalError)
                    },
                    None => Err(Error::EvalError),
                }
            } else {
                Err(Error::EvalError)
            },
            _ => Err(Error::EvalError),
        },
{
    match (left.as_integer(), right.as_integer()) {
        (Some(a), Some(b)) => {
            if left.data_type() == typ && right.data_type() == typ {
                match arith(op, a, b) {
                    Some(n) => match Value::from_integer(typ, n) {
                        Some(v) => Ok(v),
                        None => Err(Error::EvalError),
                    },
                    None => Err(Error::EvalError),
                }
            } else {
                Err(Error::EvalError)
            }
        },
        _ => Err(Error::EvalError),
    }
}

} // verus!
