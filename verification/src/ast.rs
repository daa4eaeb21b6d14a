//! The syntax tree of a query condition, as the storage engine hands it
//! over: values are raw bytes whose meaning depends on the field.

use vstd::prelude::*;
use crate::enums::{QueryConditionCombinationOp, QueryConditionOp};
use crate::misc::ByteVecValue;

verus! {

/// A node of a query condition.
#[derive(Debug)]
pub enum ASTNode {
    /// A leaf, which tests one field.
    Value {
        /// The bytes of the name of the field.
        field_name: Vec<u8>,
        op: QueryConditionOp,
        /// The value or values which the field is compared with.
        data: ByteVecValue,
        /// For a test of membership in a set of values of variable length,
        /// the byte offsets at which the members begin in `data`.
        offsets: ByteVecValue,
    },
    /// A combination of conditions.
    Expr { combination_op: QueryConditionCombinationOp, children: Vec<ASTNode> },
}

impl ASTNode {
    /// Whether this node combines other nodes.
    pub open spec fn spec_is_expr(&self) -> bool {
        *self is Expr
    }

    /// Returns whether this node combines other nodes.
    #[verifier::when_used_as_spec(spec_is_expr)]
    pub fn is_expr(&self) -> (is_expr: bool)
        ensures
            is_expr == self.spec_is_expr(),
    {
        match self {
            ASTNode::Expr { .. } => true,
            ASTNode::Value { .. } => false,
        }
    }

    /// Whether this node tests a field for null: it is a leaf without a
    /// value whose operator does not test membership in a set.
    pub open spec fn spec_is_null_test(&self) -> bool {
        match self {
            ASTNode::Value { data, op, .. } => data@.len() == 0 && !op.spec_is_set_membership(),
            ASTNode::Expr { .. } => false,
        }
    }

    /// Returns whether this node tests a field for null.
    #[verifier::when_used_as_spec(spec_is_null_test)]
    pub fn is_null_test(&self) -> (is_null_test: bool)
        ensures
            is_null_test == self.spec_is_null_test(),
    {
        match self {
            ASTNode::Value { data, op, .. } => data.size() == 0 && !op.is_set_membership(),
            ASTNode::Expr { .. } => false,
        }
    }

    /// The number of nodes which this node combines; zero for a leaf.
    pub open spec fn spec_num_children(&self) -> nat {
        match self {
            ASTNode::Value { .. } => 0,
            ASTNode::Expr { children, .. } => children@.len(),
        }
    }

    /// Returns the number of nodes which this node combines.
    pub fn num_children(&self) -> (n: usize)
        ensures
            n == self.spec_num_children(),
    {
        match self {
            ASTNode::Value { .. } => 0,
            ASTNode::Expr { children, .. } => children.len(),
        }
    }
}

} // verus!
