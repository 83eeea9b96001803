//! Decoding of portable literals and type descriptors.

use vstd::prelude::*;
use crate::datatypes::ConcreteDataType;
use crate::datatypes::SpecValue;
use crate::datatypes::Value;
use crate::error::Error;
use crate::proto::Kind;
use crate::proto::Literal;
use crate::proto::LiteralType;
use crate::proto::SpecLiteral;
use crate::proto::SpecLiteralType;
use crate::proto::Type;
use crate::proto::DEFAULT_TYPE_REF;
use crate::proto::UNSIGNED_INTEGER_TYPE_REF;

verus! {

/// The integer type of a given signed type and type variation: the signed
/// type itself under the default variation, its unsigned counterpart under
/// the unsigned one, and nothing under any other.
pub open spec fn spec_integer_type(signed: ConcreteDataType, variation: u32) -> Result<
    ConcreteDataType,
    Error,
> {
    if variation == DEFAULT_TYPE_REF {
        Ok(signed)
    } else if variation == UNSIGNED_INTEGER_TYPE_REF {
        Ok(
            match signed {
                ConcreteDataType::Int8 => ConcreteDataType::UInt8,
                ConcreteDataType::Int16 => ConcreteDataType::UInt16,
                ConcreteDataType::Int32 => ConcreteDataType::UInt32,
                _ => ConcreteDataType::UInt64,
            },
        )
    } else {
        Err(Error::UnsupportedFeature)
    }
}

fn integer_type(signed: ConcreteDataType, variation: u32) -> (r: Result<ConcreteDataType, Error>)
    ensures
        r == spec_integer_type(signed, variation),
{
    if variation == DEFAULT_TYPE_REF {
        Ok(signed)
    } else if variation == UNSIGNED_INTEGER_TYPE_REF {
        Ok(
            match signed {
                ConcreteDataType::Int8 => ConcreteDataType::UInt8,
                ConcreteDataType::Int16 => ConcreteDataType::UInt16,
                ConcreteDataType::Int32 => ConcreteDataType::UInt32,
                _ => ConcreteDataType::UInt64,
            },
        )
    } else {
        Err(Error::UnsupportedFeature)
    }
}

/// The scalar type that a type descriptor denotes.
pub open spec fn spec_from_type(t: Type) -> Result<ConcreteDataType, Error> {
    match t.kind {
        Some(Kind::Bool) => Ok(ConcreteDataType::Boolean),
        Some(Kind::I8) => spec_integer_type(ConcreteDataType::Int8, t.type_variation_reference),
        Some(Kind::I16) => spec_integer_type(ConcreteDataType::Int16, t.type_variation_reference),
        Some(Kind::I32) => spec_integer_type(ConcreteDataType::Int32, t.type_variation_reference),
        Some(Kind::I64) => spec_integer_type(ConcreteDataType::Int64, t.type_variation_reference),
        Some(Kind::String) => Ok(ConcreteDataType::String),
        Some(Kind::Date) => Ok(ConcreteDataType::Date),
        _ => Err(Error::UnsupportedFeature),
    }
}

/// Decodes a type descriptor into a scalar type.
///
/// An integer kind is signed under the default type variation and unsigned
/// under the unsigned one. Fails with `UnsupportedFeature` on a descriptor
/// without a kind, on a kind with no scalar type, and on an integer kind
/// with any other type variation.
pub fn from_substrait_type(t: &Type) -> (r: Result<ConcreteDataType, Error>)
    ensures
        r == spec_from_type(*t),
{
    match t.kind {
        Some(Kind::Bool) => Ok(ConcreteDataType::Boolean),
        Some(Kind::I8) => integer_type(ConcreteDataType::Int8, t.type_variation_reference),
        Some(Kind::I16) => integer_type(ConcreteDataType::Int16, t.type_variation_reference),
        Some(Kind::I32) => integer_type(ConcreteDataType::Int32, t.type_variation_reference),
        Some(Kind::I64) => integer_type(ConcreteDataType::Int64, t.type_variation_reference),
        Some(Kind::String) => Ok(ConcreteDataType::String),
        Some(Kind::Date) => Ok(ConcreteDataType::Date),
        _ => Err(Error::UnsupportedFeature),
    }
}

/// The number of integer type `typ` that the carried number `n` stands for:
/// the one number in the range of `typ` that differs from `n` by a multiple
/// of the size of that range.
pub open spec fn spec_wrap(typ: ConcreteDataType, n: int) -> int {
    typ.min_value() + (n - typ.min_value()) % (typ.max_value() - typ.min_value() + 1)
}

/// The integer value that a carried number stands for under a signed type
/// and a type variation.
pub open spec fn spec_integer_literal(signed: ConcreteDataType, variation: u32, n: int) -> Result<
    (SpecValue, ConcreteDataType),
    Error,
> {
    match spec_integer_type(signed, variation) {
        Ok(typ) => Ok((SpecValue::Integer { typ, value: spec_wrap(typ, n) }, typ)),
        Err(e) => Err(e),
    }
}

fn integer_literal(signed: ConcreteDataType, variation: u32, n: i64) -> (r: Result<
    (Value, ConcreteDataType),
    Error,
>)
    requires
        signed == ConcreteDataType::Int8 || signed == ConcreteDataType::Int16 || signed
            == ConcreteDataType::Int32 || signed == ConcreteDataType::Int64,
    ensures
        literal_result(r) == spec_integer_literal(signed, variation, n as int),
{
    let typ = match integer_type(signed, variation) {
        Ok(t) => t,
        Err(e) => { return Err(e); },
    };
    let (lo, size): (i128, i128) = match typ {
        ConcreteDataType::Int8 => (-0x80, 0x100),
        ConcreteDataType::Int16 => (-0x8000, 0x1_0000),
        ConcreteDataType::Int32 => (-0x8000_0000, 0x1_0000_0000),
        ConcreteDataType::Int64 => (-0x8000_0000_0000_0000, 0x1_0000_0000_0000_0000),
        ConcreteDataType::UInt8 => (0, 0x100),
        ConcreteDataType::UInt16 => (0, 0x1_0000),
        ConcreteDataType::UInt32 => (0, 0x1_0000_0000),
        _ => (0, 0x1_0000_0000_0000_0000),
    };
    assert(lo == typ.min_value() && size == typ.max_value() - typ.min_value() + 1);
    let offset: i128 = n as i128 - lo;
    // the size is positive and the reduced number lies in the range of the
    // type, so neither step comes back empty
    match offset.checked_rem_euclid(size) {
        Some(m) => {
            assert(0 <= m < size);
            match Value::from_integer(typ, lo + m) {
                Some(v) => Ok((v, typ)),
                None => Err(Error::UnsupportedFeature),
            }
        },
        None => Err(Error::UnsupportedFeature),
    }
}

/// A decoded literal with its value replaced by that value's view.
pub open spec fn literal_result(r: Result<(Value, ConcreteDataType), Error>) -> Result<
    (SpecValue, ConcreteDataType),
    Error,
> {
    match r {
        Ok((v, t)) => Ok((v@, t)),
        Err(e) => Err(e),
    }
}

/// The value and the type that a portable literal denotes.
pub open spec fn spec_from_literal(lit: SpecLiteral) -> Result<(SpecValue, ConcreteDataType), Error> {
    match lit.literal_type {
        Some(SpecLiteralType::Boolean(b)) => Ok((SpecValue::Boolean(b), ConcreteDataType::Boolean)),
        Some(SpecLiteralType::I8(n)) => spec_integer_literal(
            ConcreteDataType::Int8,
            lit.type_variation_reference,
            n as int,
        ),
        Some(SpecLiteralType::I16(n)) => spec_integer_literal(
            ConcreteDataType::Int16,
            lit.type_variation_reference,
            n as int,
        ),
        Some(SpecLiteralType::I32(n)) => spec_integer_literal(
            ConcreteDataType::Int32,
            lit.type_variation_reference,
            n as int,
        ),
        Some(SpecLiteralType::I64(n)) => spec_integer_literal(
            ConcreteDataType::Int64,
            lit.type_variation_reference,
            n as int,
        ),
        Some(SpecLiteralType::String(s)) => Ok((SpecValue::String(s), ConcreteDataType::String)),
        Some(SpecLiteralType::Date(d)) => Ok((SpecValue::Date(d as int), ConcreteDataType::Date)),
        Some(SpecLiteralType::Null(t)) => match spec_from_type(t) {
            Ok(typ) => Ok((SpecValue::Null, typ)),
            Err(e) => Err(e),
        },
        _ => Err(Error::UnsupportedFeature),
    }
}

/// Decodes a portable literal into a value and its type.
///
/// An integer literal is read under its type variation, signed or unsigned,
/// and the carried number is reduced into the range of that type. A typed
/// null gives the null value with the decoded type. Fails with
/// `UnsupportedFeature` on a literal without payload, on a payload with no
/// scalar value, on an unknown type variation of an integer, and on a typed
/// null whose type does not decode.
pub fn from_substrait_literal(lit: &Literal) -> (r: Result<(Value, ConcreteDataType), Error>)
    ensures
        literal_result(r) == spec_from_literal(lit@),
{
    match &lit.literal_type {
        Some(LiteralType::Boolean(b)) => Ok((Value::Boolean(*b), ConcreteDataType::Boolean)),
        Some(LiteralType::I8(n)) => integer_literal(
            ConcreteDataType::Int8,
            lit.type_variation_reference,
            *n as i64,
        ),
        Some(LiteralType::I16(n)) => integer_literal(
            ConcreteDataType::Int16,
            lit.type_variation_reference,
            *n as i64,
        ),
        Some(LiteralType::I32(n)) => integer_literal(
            ConcreteDataType::Int32,
            lit.type_variation_reference,
            *n as i64,
        ),
        Some(LiteralType::I64(n)) => integer_literal(
            ConcreteDataType::Int64,
            lit.type_variation_reference,
            *n,
        ),
        Some(LiteralType::String(s)) => Ok((Value::String(s.clone()), ConcreteDataType::String)),
        Some(LiteralType::Date(d)) => Ok((Value::Date(*d), ConcreteDataType::Date)),
        Some(LiteralType::Null(t)) => match from_substrait_type(t) {
            Ok(typ) => Ok((Value::Null, typ)),
            Err(e) => Err(e),
        },
        _ => Err(Error::UnsupportedFeature),
    }
}

} // verus!
