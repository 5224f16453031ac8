//! An exact-match type-reference rewriter for a syntax tree.
//!
//! Given a substitution table from type references to type references, the
//! engine walks a parsed tree depth-first and replaces every type reference
//! that is structurally equal to a table key with a copy of the mapped
//! value, without descending into the inserted copy. Everything else is
//! rebuilt unchanged, and opaque token runs (macro bodies, unparsed blobs)
//! pass through as they are.

pub mod ast;
pub mod engine;
pub mod laws;
pub mod subst;

use vstd::prelude::*;

use crate::ast::Expr;
use crate::ast::Item;
use crate::ast::List;
use crate::ast::Pat;
use crate::ast::SourceUnit;
use crate::ast::Ty;
use crate::subst::rw_expr;
use crate::subst::rw_item;
use crate::subst::rw_pat;
use crate::subst::rw_ty;
use crate::subst::rw_unit;
use crate::subst::SubstPair;

verus! {

/// A rewriter holding one substitution table for the duration of a pass.
///
/// The table is read-only while the rewriter lives; its keys are meant to
/// be fully concrete references, matched structurally and never unified
/// against generic parameters.
pub struct ReplaceTypes {
    /// The table: looked up front to back, first equal key wins.
    pub substitutions: List<SubstPair>,
}

impl ReplaceTypes {
    /// A rewriter over the given substitution table.
    pub fn new(substitutions: List<SubstPair>) -> (r: ReplaceTypes)
        ensures
            r.substitutions == substitutions,
    {
        ReplaceTypes { substitutions }
    }

    /// Rewrites a whole compilation unit, returning the rewritten tree.
    pub fn rewrite_unit(&self, root: SourceUnit) -> (r: SourceUnit)
        ensures
            r == rw_unit(root, self.substitutions),
    {
        engine::rewrite_unit(root, &self.substitutions)
    }

    /// Rewrites one declaration.
    pub fn rewrite_item(&self, root: Item) -> (r: Item)
        ensures
            r == rw_item(root, self.substitutions),
    {
        engine::rewrite_item(root, &self.substitutions)
    }

    /// Rewrites one type.
    pub fn rewrite_type(&self, root: Ty) -> (r: Ty)
        ensures
            r == rw_ty(root, self.substitutions),
    {
        engine::rewrite_ty(root, &self.substitutions)
    }

    /// Rewrites one expression.
    pub fn rewrite_expr(&self, root: Expr) -> (r: Expr)
        ensures
            r == rw_expr(root, self.substitutions),
    {
        engine::rewrite_expr(root, &self.substitutions)
    }

    /// Rewrites one pattern.
    pub fn rewrite_pattern(&self, root: Pat) -> (r: Pat)
        ensures
            r == rw_pat(root, self.substitutions),
    {
        engine::rewrite_pat(root, &self.substitutions)
    }
}

} // verus!
