//! The schema model: the type of a column and of a relation, and the plain
//! data that a constant plan carries.

use vstd::prelude::*;
use crate::datatypes::ConcreteDataType;
use crate::datatypes::Value;

verus! {

/// A row of values.
pub type Row = Vec<Value>;

/// A logical timestamp.
pub type Timestamp = i64;

/// The multiplicity of a row.
pub type Diff = i64;

/// The type of a column: a scalar type and whether the column may hold nulls.
#[derive(Clone, Copy, Debug, PartialEq, Eq, Structural, Hash)]
pub struct ColumnType {
    pub scalar_type: ConcreteDataType,
    pub nullable: bool,
}

impl ColumnType {
    /// A column type of the given scalar type and nullability.
    pub fn new(scalar_type: ConcreteDataType, nullable: bool) -> (r: ColumnType)
        ensures
            r == (ColumnType { scalar_type, nullable }),
    {
        ColumnType { scalar_type, nullable }
    }

    pub open spec fn spec_new_nullable(scalar_type: ConcreteDataType) -> ColumnType {
        ColumnType { scalar_type, nullable: true }
    }

    /// The nullable column type of the given scalar type.
    #[verifier::when_used_as_spec(spec_new_nullable)]
    pub fn new_nullable(scalar_type: ConcreteDataType) -> (r: ColumnType)
        ensures
            r == (ColumnType { scalar_type, nullable: true }),
    {
        ColumnType { scalar_type, nullable: true }
    }
}

/// The type of a relation: its column types, in order.
#[derive(Debug, PartialEq, Eq)]
pub struct RelationType {
    pub column_types: Vec<ColumnType>,
}

impl View for RelationType {
    type V = Seq<ColumnType>;

    open spec fn view(&self) -> Seq<ColumnType> {
        self.column_types@
    }
}

impl RelationType {
    /// The relation type with the given columns.
    pub fn new(column_types: Vec<ColumnType>) -> (r: RelationType)
        ensures
            r@ == column_types@,
    {
        RelationType { column_types }
    }

    /// The number of columns.
    pub fn arity(&self) -> (n: usize)
        ensures
            n == self@.len(),
    {
        self.column_types.len()
    }

    /// The type of column `index`, or `None` where the relation has no such
    /// column.
    pub fn column_type(&self, index: usize) -> (r: Option<ColumnType>)
        ensures
            r == if index < self@.len() {
                Some(self@[index as int])
            } else {
                None
            },
    {
        if index < self.column_types.len() {
            Some(self.column_types[index])
        } else {
            None
        }
    }
}

impl Clone for RelationType {
    /// An equal copy.
    fn clone(&self) -> (r: Self)
        ensures
            r@ == self@,
    {
        let mut column_types: Vec<ColumnType> = Vec::new();
        let mut i: usize = 0;
        while i < self.column_types.len()
            invariant
                i <= self.column_types@.len(),
                column_types@ == self.column_types@.take(i as int),
            decreases self.column_types@.len() - i,
        {
            column_types.push(self.column_types[i]);
            assert(self.column_types@.take(i + 1) =~= self.column_types@.take(i as int).push(
                self.column_types@[i as int],
            ));
            i = i + 1;
        }
        assert(self.column_types@.take(i as int) =~= self.column_types@);
        RelationType { column_types }
    }
}

} // verus!
