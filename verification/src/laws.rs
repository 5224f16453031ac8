//! Laws of the rewrite pass, proved against the pass that `crate::subst`
//! defines.
//!
//! The central results: a matched reference is replaced by the mapped
//! value itself, with no further matching inside it
//! (`replaced_value_inserted_whole`); a tree in which no reference matches
//! is returned unchanged (`clean_tree_unchanged_*`); opaque token runs
//! pass through (`opaque_pass_through`); for a noninterfering table one
//! pass reaches a fixed point (`idempotent_*`); and a marker reference
//! that matches the table is eliminated from every position
//! (`marker_eliminated_*`).

use vstd::prelude::*;

use crate::ast::Arm;
use crate::ast::Block;
use crate::ast::Bound;
use crate::ast::Expr;
use crate::ast::FieldDef;
use crate::ast::FieldPat;
use crate::ast::FieldVal;
use crate::ast::Fields;
use crate::ast::FnDecl;
use crate::ast::GenArg;
use crate::ast::GenericParam;
use crate::ast::Generics;
use crate::ast::Item;
use crate::ast::List;
use crate::ast::Param;
use crate::ast::Pat;
use crate::ast::Path;
use crate::ast::PathArgs;
use crate::ast::PathSeg;
use crate::ast::SourceUnit;
use crate::ast::Stmt;
use crate::ast::Ty;
use crate::ast::TypeRef;
use crate::ast::Variant;
use crate::ast::WherePred;
use crate::subst::has_match;
use crate::subst::lookup;
use crate::subst::rw_arms;
use crate::subst::rw_block;
use crate::subst::rw_bound;
use crate::subst::rw_bounds;
use crate::subst::rw_expr;
use crate::subst::rw_expr_opt;
use crate::subst::rw_exprs;
use crate::subst::rw_field_defs;
use crate::subst::rw_field_pats;
use crate::subst::rw_field_vals;
use crate::subst::rw_fields;
use crate::subst::rw_fn_decl;
use crate::subst::rw_gen_arg;
use crate::subst::rw_gen_args;
use crate::subst::rw_generic_param;
use crate::subst::rw_generic_params;
use crate::subst::rw_generics;
use crate::subst::rw_item;
use crate::subst::rw_items;
use crate::subst::rw_param;
use crate::subst::rw_params;
use crate::subst::rw_pat;
use crate::subst::rw_path;
use crate::subst::rw_path_args;
use crate::subst::rw_pats;
use crate::subst::rw_seg;
use crate::subst::rw_segs;
use crate::subst::rw_stmt;
use crate::subst::rw_stmts;
use crate::subst::rw_ty;
use crate::subst::rw_ty_opt;
use crate::subst::rw_type_ref;
use crate::subst::rw_tys;
use crate::subst::rw_unit;
use crate::subst::rw_variants;
use crate::subst::rw_where_pred;
use crate::subst::rw_where_preds;
use crate::subst::SubstPair;

verus! {

// ------------------------------------------------------------------
// Membership and the two sides of a lookup
// ------------------------------------------------------------------

/// Whether `p` is one of the table's entries.
pub open spec fn mem_pair(m: List<SubstPair>, p: SubstPair) -> bool
    decreases m,
{
    match m {
        List::Nil => false,
        List::Cons(q, rest) => *q == p || mem_pair(*rest, p),
    }
}

/// A successful lookup comes from an entry of the table.
pub proof fn lemma_lookup_mem(m: List<SubstPair>, t: TypeRef) -> (p: SubstPair)
    requires
        lookup(m, t) is Some,
    ensures
        mem_pair(m, p),
        p.key == t,
        lookup(m, t) == Option::Some(p.value),
    decreases m,
{
    match m {
        List::Nil => SubstPair { key: t, value: t },
        List::Cons(q, rest) => {
            if q.key == t {
                *q
            } else {
                lemma_lookup_mem(*rest, t)
            }
        },
    }
}

// ------------------------------------------------------------------
// Clean trees: no type reference in them matches the table
// ------------------------------------------------------------------

/// No named reference anywhere in `t` matches a table key.
pub open spec fn clean_ty(t: Ty, m: List<SubstPair>) -> bool
    decreases t,
{
    match t {
        Ty::Named(tr) => clean_type_ref(tr, m),
        Ty::Array(el, _) => clean_ty(*el, m),
        Ty::Slice(el) => clean_ty(*el, m),
        Ty::Borrowed(_, _, el) => clean_ty(*el, m),
        Ty::Pointer(_, el) => clean_ty(*el, m),
        Ty::FnSig(params, ret) => clean_tys(params, m) && clean_ty_opt(ret, m),
        Ty::DynBound(bounds) => clean_bounds(bounds, m),
        Ty::ImplBound(bounds) => clean_bounds(bounds, m),
        Ty::Tuple(els) => clean_tys(els, m),
        Ty::Paren(el) => clean_ty(*el, m),
        Ty::Infer => true,
        Ty::Never => true,
        Ty::MacroTy(_) => true,
        Ty::Verbatim(_) => true,
    }
}

/// The reference itself matches no key, and neither does anything inside it.
pub open spec fn clean_type_ref(tr: TypeRef, m: List<SubstPair>) -> bool
    decreases tr,
{
    !has_match(m, tr) && clean_ty_opt(tr.qself, m) && clean_path(tr.path, m)
}

/// Cleanness of an optional type.
pub open spec fn clean_ty_opt(o: Option<Box<Ty>>, m: List<SubstPair>) -> bool
    decreases o,
{
    match o {
        Option::Some(t) => clean_ty(*t, m),
        Option::None => true,
    }
}

/// Cleanness of a type list.
pub open spec fn clean_tys(l: List<Ty>, m: List<SubstPair>) -> bool
    decreases l,
{
    match l {
        List::Nil => true,
        List::Cons(t, rest) => clean_ty(*t, m) && clean_tys(*rest, m),
    }
}

/// Cleanness of a path.
pub open spec fn clean_path(p: Path, m: List<SubstPair>) -> bool
    decreases p,
{
    clean_segs(p.segments, m)
}

/// Cleanness of a segment list.
pub open spec fn clean_segs(l: List<PathSeg>, m: List<SubstPair>) -> bool
    decreases l,
{
    match l {
        List::Nil => true,
        List::Cons(s, rest) => clean_seg(*s, m) && clean_segs(*rest, m),
    }
}

/// Cleanness of a segment.
pub open spec fn clean_seg(s: PathSeg, m: List<SubstPair>) -> bool
    decreases s,
{
    clean_path_args(s.args, m)
}

/// Cleanness of an argument position.
pub open spec fn clean_path_args(a: PathArgs, m: List<SubstPair>) -> bool
    decreases a,
{
    match a {
        PathArgs::Plain => true,
        PathArgs::Angle(args) => clean_gen_args(args, m),
        PathArgs::Paren(ins, out) => clean_tys(ins, m) && clean_ty_opt(out, m),
    }
}

/// Cleanness of an angle-bracketed argument list.
pub open spec fn clean_gen_args(l: List<GenArg>, m: List<SubstPair>) -> bool
    decreases l,
{
    match l {
        List::Nil => true,
        List::Cons(a, rest) => clean_gen_arg(*a, m) && clean_gen_args(*rest, m),
    }
}

/// Cleanness of a generic argument.
pub open spec fn clean_gen_arg(a: GenArg, m: List<SubstPair>) -> bool
    decreases a,
{
    match a {
        GenArg::TypeArg(t) => clean_ty(t, m),
        GenArg::ConstArg(_) => true,
        GenArg::LifetimeArg(_) => true,
        GenArg::BindingArg(_, t) => clean_ty(t, m),
    }
}

/// Cleanness of a bound list.
pub open spec fn clean_bounds(l: List<Bound>, m: List<SubstPair>) -> bool
    decreases l,
{
    match l {
        List::Nil => true,
        List::Cons(b, rest) => clean_bound(*b, m) && clean_bounds(*rest, m),
    }
}

/// Cleanness of a bound.
pub open spec fn clean_bound(b: Bound, m: List<SubstPair>) -> bool
    decreases b,
{
    match b {
        Bound::Interface(p) => clean_path(p, m),
        Bound::LifetimeBound(_) => true,
    }
}

// ------------------------------------------------------------------
// Occurrence of a marker reference at type positions
// ------------------------------------------------------------------

/// Whether the reference `k` occurs at some named-reference position in `t`.
pub open spec fn occurs_ty(k: TypeRef, t: Ty) -> bool
    decreases t,
{
    match t {
        Ty::Named(tr) => occurs_type_ref(k, tr),
        Ty::Array(el, _) => occurs_ty(k, *el),
        Ty::Slice(el) => occurs_ty(k, *el),
        Ty::Borrowed(_, _, el) => occurs_ty(k, *el),
        Ty::Pointer(_, el) => occurs_ty(k, *el),
        Ty::FnSig(params, ret) => occurs_tys(k, params) || occurs_ty_opt(k, ret),
        Ty::DynBound(bounds) => occurs_bounds(k, bounds),
        Ty::ImplBound(bounds) => occurs_bounds(k, bounds),
        Ty::Tuple(els) => occurs_tys(k, els),
        Ty::Paren(el) => occurs_ty(k, *el),
        Ty::Infer => false,
        Ty::Never => false,
        Ty::MacroTy(_) => false,
        Ty::Verbatim(_) => false,
    }
}

/// Whether `k` is `tr` itself or occurs inside `tr`'s qualifier or arguments.
pub open spec fn occurs_type_ref(k: TypeRef, tr: TypeRef) -> bool
    decreases tr,
{
    tr == k || occurs_ty_opt(k, tr.qself) || occurs_path(k, tr.path)
}

/// Occurrence in an optional type.
pub open spec fn occurs_ty_opt(k: TypeRef, o: Option<Box<Ty>>) -> bool
    decreases o,
{
    match o {
        Option::Some(t) => occurs_ty(k, *t),
        Option::None => false,
    }
}

/// Occurrence in a type list.
pub open spec fn occurs_tys(k: TypeRef, l: List<Ty>) -> bool
    decreases l,
{
    match l {
        List::Nil => false,
        List::Cons(t, rest) => occurs_ty(k, *t) || occurs_tys(k, *rest),
    }
}

/// Occurrence in a path.
pub open spec fn occurs_path(k: TypeRef, p: Path) -> bool
    decreases p,
{
    occurs_segs(k, p.segments)
}

/// Occurrence in a segment list.
pub open spec fn occurs_segs(k: TypeRef, l: List<PathSeg>) -> bool
    decreases l,
{
    match l {
        List::Nil => false,
        List::Cons(s, rest) => occurs_seg(k, *s) || occurs_segs(k, *rest),
    }
}

/// Occurrence in a segment.
pub open spec fn occurs_seg(k: TypeRef, s: PathSeg) -> bool
    decreases s,
{
    occurs_path_args(k, s.args)
}

/// Occurrence in an argument position.
pub open spec fn occurs_path_args(k: TypeRef, a: PathArgs) -> bool
    decreases a,
{
    match a {
        PathArgs::Plain => false,
        PathArgs::Angle(args) => occurs_gen_args(k, args),
        PathArgs::Paren(ins, out) => occurs_tys(k, ins) || occurs_ty_opt(k, out),
    }
}

/// Occurrence in an angle-bracketed argument list.
pub open spec fn occurs_gen_args(k: TypeRef, l: List<GenArg>) -> bool
    decreases l,
{
    match l {
        List::Nil => false,
        List::Cons(a, rest) => occurs_gen_arg(k, *a) || occurs_gen_args(k, *rest),
    }
}

/// Occurrence in a generic argument.
pub open spec fn occurs_gen_arg(k: TypeRef, a: GenArg) -> bool
    decreases a,
{
    match a {
        GenArg::TypeArg(t) => occurs_ty(k, t),
        GenArg::ConstArg(_) => false,
        GenArg::LifetimeArg(_) => false,
        GenArg::BindingArg(_, t) => occurs_ty(k, t),
    }
}

/// Occurrence in a bound list.
pub open spec fn occurs_bounds(k: TypeRef, l: List<Bound>) -> bool
    decreases l,
{
    match l {
        List::Nil => false,
        List::Cons(b, rest) => occurs_bound(k, *b) || occurs_bounds(k, *rest),
    }
}

/// Occurrence in a bound.
pub open spec fn occurs_bound(k: TypeRef, b: Bound) -> bool
    decreases b,
{
    match b {
        Bound::Interface(p) => occurs_path(k, p),
        Bound::LifetimeBound(_) => false,
    }
}

// ------------------------------------------------------------------
// A noninterfering table
// ------------------------------------------------------------------

/// Every value of the table is clean: nothing in a value, the value
/// itself included, matches a key.
pub open spec fn values_clean(m: List<SubstPair>) -> bool {
    forall|p: SubstPair| #[trigger] mem_pair(m, p) ==> clean_type_ref(p.value, m)
}

/// No value of the table occurs anywhere inside a key.
pub open spec fn keys_value_free(m: List<SubstPair>) -> bool {
    forall|p: SubstPair, q: SubstPair|
        #[trigger] mem_pair(m, p) && #[trigger] mem_pair(m, q) ==> !occurs_type_ref(
            q.value,
            p.key,
        )
}

/// A table whose replacement values cannot interact with its keys: no
/// value matches a key or contains a match, and no value occurs inside a
/// key. Under this condition one pass reaches a fixed point. It
/// strengthens plain key/value disjointness, which alone does not
/// suffice: with the two entries `A -> B` and `C<B> -> D`, whose values
/// are no keys, the tree `C<A>` becomes `C<B>` after one pass and `D`
/// after a second.
pub open spec fn noninterfering(m: List<SubstPair>) -> bool {
    values_clean(m) && keys_value_free(m)
}

/// Noninterference is stronger than plain key/value disjointness: under
/// it, no table value equals a table key.
pub proof fn noninterfering_values_are_no_keys(m: List<SubstPair>, p: SubstPair, q: SubstPair)
    requires
        noninterfering(m),
        mem_pair(m, p),
        mem_pair(m, q),
    ensures
        p.key != q.value,
{
    assert(!occurs_type_ref(q.value, p.key));
}

// ------------------------------------------------------------------
// A clean tree is returned unchanged
// ------------------------------------------------------------------

/// A type in which no reference matches the table is left exactly as it
/// was: the pass replaces on exact match only.
pub proof fn clean_tree_unchanged_ty(t: Ty, m: List<SubstPair>)
    requires
        clean_ty(t, m),
    ensures
        rw_ty(t, m) == t,
    decreases t,
{
    match t {
        Ty::Named(tr) => {
            clean_tree_unchanged_type_ref(tr, m);
        },
        Ty::Array(el, _) => {
            clean_tree_unchanged_ty(*el, m);
        },
        Ty::Slice(el) => {
            clean_tree_unchanged_ty(*el, m);
        },
        Ty::Borrowed(_, _, el) => {
            clean_tree_unchanged_ty(*el, m);
        },
        Ty::Pointer(_, el) => {
            clean_tree_unchanged_ty(*el, m);
        },
        Ty::FnSig(params, ret) => {
            clean_tree_unchanged_tys(params, m);
            clean_tree_unchanged_ty_opt(ret, m);
        },
        Ty::DynBound(bounds) => {
            clean_tree_unchanged_bounds(bounds, m);
        },
        Ty::ImplBound(bounds) => {
            clean_tree_unchanged_bounds(bounds, m);
        },
        Ty::Tuple(els) => {
            clean_tree_unchanged_tys(els, m);
        },
        Ty::Paren(el) => {
            clean_tree_unchanged_ty(*el, m);
        },
        _ => {},
    }
}

/// As `clean_tree_unchanged_ty`, for a reference's own structure.
pub proof fn clean_tree_unchanged_type_ref(tr: TypeRef, m: List<SubstPair>)
    requires
        clean_type_ref(tr, m),
    ensures
        rw_type_ref(tr, m) == tr,
    decreases tr,
{
    clean_tree_unchanged_ty_opt(tr.qself, m);
    clean_tree_unchanged_path(tr.path, m);
}

/// As `clean_tree_unchanged_ty`, for an optional type.
pub proof fn clean_tree_unchanged_ty_opt(o: Option<Box<Ty>>, m: List<SubstPair>)
    requires
        clean_ty_opt(o, m),
    ensures
        rw_ty_opt(o, m) == o,
    decreases o,
{
    match o {
        Option::Some(t) => {
            clean_tree_unchanged_ty(*t, m);
        },
        Option::None => {},
    }
}

/// As `clean_tree_unchanged_ty`, for a type list.
pub proof fn clean_tree_unchanged_tys(l: List<Ty>, m: List<SubstPair>)
    requires
        clean_tys(l, m),
    ensures
        rw_tys(l, m) == l,
    decreases l,
{
    match l {
        List::Nil => {},
        List::Cons(t, rest) => {
            clean_tree_unchanged_ty(*t, m);
            clean_tree_unchanged_tys(*rest, m);
        },
    }
}

/// As `clean_tree_unchanged_ty`, for a path.
pub proof fn clean_tree_unchanged_path(p: Path, m: List<SubstPair>)
    requires
        clean_path(p, m),
    ensures
        rw_path(p, m) == p,
    decreases p,
{
    clean_tree_unchanged_segs(p.segments, m);
}

/// As `clean_tree_unchanged_ty`, for a segment list.
pub proof fn clean_tree_unchanged_segs(l: List<PathSeg>, m: List<SubstPair>)
    requires
        clean_segs(l, m),
    ensures
        rw_segs(l, m) == l,
    decreases l,
{
    match l {
        List::Nil => {},
        List::Cons(s, rest) => {
            clean_tree_unchanged_seg(*s, m);
            clean_tree_unchanged_segs(*rest, m);
        },
    }
}

/// As `clean_tree_unchanged_ty`, for a segment.
pub proof fn clean_tree_unchanged_seg(s: PathSeg, m: List<SubstPair>)
    requires
        clean_seg(s, m),
    ensures
        rw_seg(s, m) == s,
    decreases s,
{
    clean_tree_unchanged_path_args(s.args, m);
}

/// As `clean_tree_unchanged_ty`, for an argument position.
pub proof fn clean_tree_unchanged_path_args(a: PathArgs, m: List<SubstPair>)
    requires
        clean_path_args(a, m),
    ensures
        rw_path_args(a, m) == a,
    decreases a,
{
    match a {
        PathArgs::Plain => {},
        PathArgs::Angle(args) => {
            clean_tree_unchanged_gen_args(args, m);
        },
        PathArgs::Paren(ins, out) => {
            clean_tree_unchanged_tys(ins, m);
            clean_tree_unchanged_ty_opt(out, m);
        },
    }
}

/// As `clean_tree_unchanged_ty`, for an angle-bracketed argument list.
pub proof fn clean_tree_unchanged_gen_args(l: List<GenArg>, m: List<SubstPair>)
    requires
        clean_gen_args(l, m),
    ensures
        rw_gen_args(l, m) == l,
    decreases l,
{
    match l {
        List::Nil => {},
        List::Cons(a, rest) => {
            clean_tree_unchanged_gen_arg(*a, m);
            clean_tree_unchanged_gen_args(*rest, m);
        },
    }
}

/// As `clean_tree_unchanged_ty`, for a generic argument.
pub proof fn clean_tree_unchanged_gen_arg(a: GenArg, m: List<SubstPair>)
    requires
        clean_gen_arg(a, m),
    ensures
        rw_gen_arg(a, m) == a,
    decreases a,
{
    match a {
        GenArg::TypeArg(t) => {
            clean_tree_unchanged_ty(t, m);
        },
        GenArg::BindingArg(_, t) => {
            clean_tree_unchanged_ty(t, m);
        },
        _ => {},
    }
}

/// As `clean_tree_unchanged_ty`, for a bound list.
pub proof fn clean_tree_unchanged_bounds(l: List<Bound>, m: List<SubstPair>)
    requires
        clean_bounds(l, m),
    ensures
        rw_bounds(l, m) == l,
    decreases l,
{
    match l {
        List::Nil => {},
        List::Cons(b, rest) => {
            clean_tree_unchanged_bound(*b, m);
            clean_tree_unchanged_bounds(*rest, m);
        },
    }
}

/// As `clean_tree_unchanged_ty`, for a bound.
pub proof fn clean_tree_unchanged_bound(b: Bound, m: List<SubstPair>)
    requires
        clean_bound(b, m),
    ensures
        rw_bound(b, m) == b,
    decreases b,
{
    match b {
        Bound::Interface(p) => {
            clean_tree_unchanged_path(p, m);
        },
        Bound::LifetimeBound(_) => {},
    }
}

// ------------------------------------------------------------------
// A change leaves a table value behind
// ------------------------------------------------------------------

/// If the pass changed a type at all, some table value now occurs in the
/// result: every change bottoms out in a replacement.
pub proof fn change_leaves_value_ty(t: Ty, m: List<SubstPair>) -> (p: SubstPair)
    requires
        rw_ty(t, m) != t,
    ensures
        mem_pair(m, p),
        occurs_ty(p.value, rw_ty(t, m)),
    decreases t,
{
    match t {
        Ty::Named(tr) => {
            if lookup(m, tr) is Some {
                let p = lemma_lookup_mem(m, tr);
                assert(rw_ty(t, m) == Ty::Named(p.value));
                assert(occurs_type_ref(p.value, p.value));
                p
            } else {
                let p = change_leaves_value_type_ref(tr, m);
                assert(rw_ty(t, m) == Ty::Named(rw_type_ref(tr, m)));
                p
            }
        },
        Ty::Array(el, _) => change_leaves_value_ty(*el, m),
        Ty::Slice(el) => change_leaves_value_ty(*el, m),
        Ty::Borrowed(_, _, el) => change_leaves_value_ty(*el, m),
        Ty::Pointer(_, el) => change_leaves_value_ty(*el, m),
        Ty::FnSig(params, ret) => {
            if rw_tys(params, m) != params {
                change_leaves_value_tys(params, m)
            } else {
                change_leaves_value_ty_opt(ret, m)
            }
        },
        Ty::DynBound(bounds) => change_leaves_value_bounds(bounds, m),
        Ty::ImplBound(bounds) => change_leaves_value_bounds(bounds, m),
        Ty::Tuple(els) => change_leaves_value_tys(els, m),
        Ty::Paren(el) => change_leaves_value_ty(*el, m),
        _ => SubstPair {
            key: TypeRef { qself: Option::None, path: Path { segments: List::Nil } },
            value: TypeRef { qself: Option::None, path: Path { segments: List::Nil } },
        },
    }
}

/// As `change_leaves_value_ty`, for a reference's structure.
pub proof fn change_leaves_value_type_ref(tr: TypeRef, m: List<SubstPair>) -> (p: SubstPair)
    requires
        rw_type_ref(tr, m) != tr,
    ensures
        mem_pair(m, p),
        occurs_type_ref(p.value, rw_type_ref(tr, m)),
    decreases tr,
{
    if rw_ty_opt(tr.qself, m) != tr.qself {
        change_leaves_value_ty_opt(tr.qself, m)
    } else {
        change_leaves_value_path(tr.path, m)
    }
}

/// As `change_leaves_value_ty`, for an optional type.
pub proof fn change_leaves_value_ty_opt(o: Option<Box<Ty>>, m: List<SubstPair>) -> (p: SubstPair)
    requires
        rw_ty_opt(o, m) != o,
    ensures
        mem_pair(m, p),
        occurs_ty_opt(p.value, rw_ty_opt(o, m)),
    decreases o,
{
    match o {
        Option::Some(t) => change_leaves_value_ty(*t, m),
        Option::None => SubstPair {
            key: TypeRef { qself: Option::None, path: Path { segments: List::Nil } },
            value: TypeRef { qself: Option::None, path: Path { segments: List::Nil } },
        },
    }
}

/// As `change_leaves_value_ty`, for a type list.
pub proof fn change_leaves_value_tys(l: List<Ty>, m: List<SubstPair>) -> (p: SubstPair)
    requires
        rw_tys(l, m) != l,
    ensures
        mem_pair(m, p),
        occurs_tys(p.value, rw_tys(l, m)),
    decreases l,
{
    match l {
        List::Nil => SubstPair {
            key: TypeRef { qself: Option::None, path: Path { segments: List::Nil } },
            value: TypeRef { qself: Option::None, path: Path { segments: List::Nil } },
        },
        List::Cons(t, rest) => {
            if rw_ty(*t, m) != *t {
                change_leaves_value_ty(*t, m)
            } else {
                change_leaves_value_tys(*rest, m)
            }
        },
    }
}

/// As `change_leaves_value_ty`, for a path.
pub proof fn change_leaves_value_path(p: Path, m: List<SubstPair>) -> (r: SubstPair)
    requires
        rw_path(p, m) != p,
    ensures
        mem_pair(m, r),
        occurs_path(r.value, rw_path(p, m)),
    decreases p,
{
    change_leaves_value_segs(p.segments, m)
}

/// As `change_leaves_value_ty`, for a segment list.
pub proof fn change_leaves_value_segs(l: List<PathSeg>, m: List<SubstPair>) -> (p: SubstPair)
    requires
        rw_segs(l, m) != l,
    ensures
        mem_pair(m, p),
        occurs_segs(p.value, rw_segs(l, m)),
    decreases l,
{
    match l {
        List::Nil => SubstPair {
            key: TypeRef { qself: Option::None, path: Path { segments: List::Nil } },
            value: TypeRef { qself: Option::None, path: Path { segments: List::Nil } },
        },
        List::Cons(s, rest) => {
            if rw_seg(*s, m) != *s {
                change_leaves_value_seg(*s, m)
            } else {
                change_leaves_value_segs(*rest, m)
            }
        },
    }
}

/// As `change_leaves_value_ty`, for a segment.
pub proof fn change_leaves_value_seg(s: PathSeg, m: List<SubstPair>) -> (p: SubstPair)
    requires
        rw_seg(s, m) != s,
    ensures
        mem_pair(m, p),
        occurs_seg(p.value, rw_seg(s, m)),
    decreases s,
{
    change_leaves_value_path_args(s.args, m)
}

/// As `change_leaves_value_ty`, for an argument position.
pub proof fn change_leaves_value_path_args(a: PathArgs, m: List<SubstPair>) -> (p: SubstPair)
    requires
        rw_path_args(a, m) != a,
    ensures
        mem_pair(m, p),
        occurs_path_args(p.value, rw_path_args(a, m)),
    decreases a,
{
    match a {
        PathArgs::Plain => SubstPair {
            key: TypeRef { qself: Option::None, path: Path { segments: List::Nil } },
            value: TypeRef { qself: Option::None, path: Path { segments: List::Nil } },
        },
        PathArgs::Angle(args) => change_leaves_value_gen_args(args, m),
        PathArgs::Paren(ins, out) => {
            if rw_tys(ins, m) != ins {
                change_leaves_value_tys(ins, m)
            } else {
                change_leaves_value_ty_opt(out, m)
            }
        },
    }
}

/// As `change_leaves_value_ty`, for an angle-bracketed argument list.
pub proof fn change_leaves_value_gen_args(l: List<GenArg>, m: List<SubstPair>) -> (p: SubstPair)
    requires
        rw_gen_args(l, m) != l,
    ensures
        mem_pair(m, p),
        occurs_gen_args(p.value, rw_gen_args(l, m)),
    decreases l,
{
    match l {
        List::Nil => SubstPair {
            key: TypeRef { qself: Option::None, path: Path { segments: List::Nil } },
            value: TypeRef { qself: Option::None, path: Path { segments: List::Nil } },
        },
        List::Cons(a, rest) => {
            if rw_gen_arg(*a, m) != *a {
                change_leaves_value_gen_arg(*a, m)
            } else {
                change_leaves_value_gen_args(*rest, m)
            }
        },
    }
}

/// As `change_leaves_value_ty`, for a generic argument.
pub proof fn change_leaves_value_gen_arg(a: GenArg, m: List<SubstPair>) -> (p: SubstPair)
    requires
        rw_gen_arg(a, m) != a,
    ensures
        mem_pair(m, p),
        occurs_gen_arg(p.value, rw_gen_arg(a, m)),
    decreases a,
{
    match a {
        GenArg::TypeArg(t) => change_leaves_value_ty(t, m),
        GenArg::BindingArg(_, t) => change_leaves_value_ty(t, m),
        _ => SubstPair {
            key: TypeRef { qself: Option::None, path: Path { segments: List::Nil } },
            value: TypeRef { qself: Option::None, path: Path { segments: List::Nil } },
        },
    }
}

/// As `change_leaves_value_ty`, for a bound list.
pub proof fn change_leaves_value_bounds(l: List<Bound>, m: List<SubstPair>) -> (p: SubstPair)
    requires
        rw_bounds(l, m) != l,
    ensures
        mem_pair(m, p),
        occurs_bounds(p.value, rw_bounds(l, m)),
    decreases l,
{
    match l {
        List::Nil => SubstPair {
            key: TypeRef { qself: Option::None, path: Path { segments: List::Nil } },
            value: TypeRef { qself: Option::None, path: Path { segments: List::Nil } },
        },
        List::Cons(b, rest) => {
            if rw_bound(*b, m) != *b {
                change_leaves_value_bound(*b, m)
            } else {
                change_leaves_value_bounds(*rest, m)
            }
        },
    }
}

/// As `change_leaves_value_ty`, for a bound.
pub proof fn change_leaves_value_bound(b: Bound, m: List<SubstPair>) -> (p: SubstPair)
    requires
        rw_bound(b, m) != b,
    ensures
        mem_pair(m, p),
        occurs_bound(p.value, rw_bound(b, m)),
    decreases b,
{
    match b {
        Bound::Interface(p) => change_leaves_value_path(p, m),
        Bound::LifetimeBound(_) => SubstPair {
            key: TypeRef { qself: Option::None, path: Path { segments: List::Nil } },
            value: TypeRef { qself: Option::None, path: Path { segments: List::Nil } },
        },
    }
}


// ------------------------------------------------------------------
// One pass reaches a fixed point
// ------------------------------------------------------------------

/// Idempotence on types: under a noninterfering table, a second pass over
/// an already rewritten type changes nothing.
pub proof fn idempotent_ty(t: Ty, m: List<SubstPair>)
    requires
        noninterfering(m),
    ensures
        rw_ty(rw_ty(t, m), m) == rw_ty(t, m),
    decreases t,
{
    match t {
        Ty::Named(tr) => {
            if lookup(m, tr) is Some {
                let p = lemma_lookup_mem(m, tr);
                assert(clean_type_ref(p.value, m));
                assert(rw_ty(t, m) == Ty::Named(p.value));
                clean_tree_unchanged_type_ref(p.value, m);
            } else {
                let u = rw_type_ref(tr, m);
                assert(rw_ty(t, m) == Ty::Named(u));
                if lookup(m, u) is Some {
                    if u == tr {
                        assert(false);
                    } else {
                        let q = change_leaves_value_type_ref(tr, m);
                        let pk = lemma_lookup_mem(m, u);
                        assert(mem_pair(m, pk) && mem_pair(m, q));
                        assert(!occurs_type_ref(q.value, pk.key));
                        assert(false);
                    }
                }
                idempotent_type_ref(tr, m);
            }
        },
        Ty::Array(el, _) => {
            idempotent_ty(*el, m);
        },
        Ty::Slice(el) => {
            idempotent_ty(*el, m);
        },
        Ty::Borrowed(_, _, el) => {
            idempotent_ty(*el, m);
        },
        Ty::Pointer(_, el) => {
            idempotent_ty(*el, m);
        },
        Ty::FnSig(params, ret) => {
            idempotent_tys(params, m);
            idempotent_ty_opt(ret, m);
        },
        Ty::DynBound(bounds) => {
            idempotent_bounds(bounds, m);
        },
        Ty::ImplBound(bounds) => {
            idempotent_bounds(bounds, m);
        },
        Ty::Tuple(els) => {
            idempotent_tys(els, m);
        },
        Ty::Paren(el) => {
            idempotent_ty(*el, m);
        },
        _ => {},
    }
}

/// As `idempotent_ty`, for a reference's structure.
pub proof fn idempotent_type_ref(tr: TypeRef, m: List<SubstPair>)
    requires
        noninterfering(m),
    ensures
        rw_type_ref(rw_type_ref(tr, m), m) == rw_type_ref(tr, m),
    decreases tr,
{
    idempotent_ty_opt(tr.qself, m);
    idempotent_path(tr.path, m);
}

/// As `idempotent_ty`, for an optional type.
pub proof fn idempotent_ty_opt(o: Option<Box<Ty>>, m: List<SubstPair>)
    requires
        noninterfering(m),
    ensures
        rw_ty_opt(rw_ty_opt(o, m), m) == rw_ty_opt(o, m),
    decreases o,
{
    match o {
        Option::Some(t) => {
            idempotent_ty(*t, m);
        },
        Option::None => {},
    }
}

/// As `idempotent_ty`, for a type list.
pub proof fn idempotent_tys(l: List<Ty>, m: List<SubstPair>)
    requires
        noninterfering(m),
    ensures
        rw_tys(rw_tys(l, m), m) == rw_tys(l, m),
    decreases l,
{
    match l {
        List::Nil => {},
        List::Cons(t, rest) => {
            idempotent_ty(*t, m);
            idempotent_tys(*rest, m);
        },
    }
}

/// As `idempotent_ty`, for a path.
pub proof fn idempotent_path(p: Path, m: List<SubstPair>)
    requires
        noninterfering(m),
    ensures
        rw_path(rw_path(p, m), m) == rw_path(p, m),
    decreases p,
{
    idempotent_segs(p.segments, m);
}

/// As `idempotent_ty`, for a segment list.
pub proof fn idempotent_segs(l: List<PathSeg>, m: List<SubstPair>)
    requires
        noninterfering(m),
    ensures
        rw_segs(rw_segs(l, m), m) == rw_segs(l, m),
    decreases l,
{
    match l {
        List::Nil => {},
        List::Cons(s, rest) => {
            idempotent_seg(*s, m);
            idempotent_segs(*rest, m);
        },
    }
}

/// As `idempotent_ty`, for a segment.
pub proof fn idempotent_seg(s: PathSeg, m: List<SubstPair>)
    requires
        noninterfering(m),
    ensures
        rw_seg(rw_seg(s, m), m) == rw_seg(s, m),
    decreases s,
{
    idempotent_path_args(s.args, m);
}

/// As `idempotent_ty`, for an argument position.
pub proof fn idempotent_path_args(a: PathArgs, m: List<SubstPair>)
    requires
        noninterfering(m),
    ensures
        rw_path_args(rw_path_args(a, m), m) == rw_path_args(a, m),
    decreases a,
{
    match a {
        PathArgs::Plain => {},
        PathArgs::Angle(args) => {
            idempotent_gen_args(args, m);
        },
        PathArgs::Paren(ins, out) => {
            idempotent_tys(ins, m);
            idempotent_ty_opt(out, m);
        },
    }
}

/// As `idempotent_ty`, for an angle-bracketed argument list.
pub proof fn idempotent_gen_args(l: List<GenArg>, m: List<SubstPair>)
    requires
        noninterfering(m),
    ensures
        rw_gen_args(rw_gen_args(l, m), m) == rw_gen_args(l, m),
    decreases l,
{
    match l {
        List::Nil => {},
        List::Cons(a, rest) => {
            idempotent_gen_arg(*a, m);
            idempotent_gen_args(*rest, m);
        },
    }
}

/// As `idempotent_ty`, for a generic argument.
pub proof fn idempotent_gen_arg(a: GenArg, m: List<SubstPair>)
    requires
        noninterfering(m),
    ensures
        rw_gen_arg(rw_gen_arg(a, m), m) == rw_gen_arg(a, m),
    decreases a,
{
    match a {
        GenArg::TypeArg(t) => {
            idempotent_ty(t, m);
        },
        GenArg::BindingArg(_, t) => {
            idempotent_ty(t, m);
        },
        _ => {},
    }
}

/// As `idempotent_ty`, for a bound list.
pub proof fn idempotent_bounds(l: List<Bound>, m: List<SubstPair>)
    requires
        noninterfering(m),
    ensures
        rw_bounds(rw_bounds(l, m), m) == rw_bounds(l, m),
    decreases l,
{
    match l {
        List::Nil => {},
        List::Cons(b, rest) => {
            idempotent_bound(*b, m);
            idempotent_bounds(*rest, m);
        },
    }
}

/// As `idempotent_ty`, for a bound.
pub proof fn idempotent_bound(b: Bound, m: List<SubstPair>)
    requires
        noninterfering(m),
    ensures
        rw_bound(rw_bound(b, m), m) == rw_bound(b, m),
    decreases b,
{
    match b {
        Bound::Interface(p) => {
            idempotent_path(p, m);
        },
        Bound::LifetimeBound(_) => {},
    }
}

// ------------------------------------------------------------------
// A matching marker is eliminated from every position
// ------------------------------------------------------------------

/// The marker `k` occurs in no table value.
pub open spec fn marker_absent_from_values(m: List<SubstPair>, k: TypeRef) -> bool {
    forall|p: SubstPair| #[trigger] mem_pair(m, p) ==> !occurs_type_ref(k, p.value)
}

/// No table value occurs inside the marker `k`.
pub open spec fn values_absent_from_marker(m: List<SubstPair>, k: TypeRef) -> bool {
    forall|p: SubstPair| #[trigger] mem_pair(m, p) ==> !occurs_type_ref(p.value, k)
}

/// Exhaustive reachability on types: a marker reference that matches the
/// table, does not occur in any table value, and holds no table value
/// inside itself, no longer occurs anywhere after one pass — wherever in
/// the type it was planted.
pub proof fn marker_eliminated_ty(k: TypeRef, t: Ty, m: List<SubstPair>)
    requires
        has_match(m, k),
        marker_absent_from_values(m, k),
        values_absent_from_marker(m, k),
    ensures
        !occurs_ty(k, rw_ty(t, m)),
    decreases t,
{
    match t {
        Ty::Named(tr) => {
            if lookup(m, tr) is Some {
                let p = lemma_lookup_mem(m, tr);
                assert(rw_ty(t, m) == Ty::Named(p.value));
                assert(!occurs_type_ref(k, p.value));
            } else {
                marker_eliminated_type_ref(k, tr, m);
            }
        },
        Ty::Array(el, _) => {
            marker_eliminated_ty(k, *el, m);
        },
        Ty::Slice(el) => {
            marker_eliminated_ty(k, *el, m);
        },
        Ty::Borrowed(_, _, el) => {
            marker_eliminated_ty(k, *el, m);
        },
        Ty::Pointer(_, el) => {
            marker_eliminated_ty(k, *el, m);
        },
        Ty::FnSig(params, ret) => {
            marker_eliminated_tys(k, params, m);
            marker_eliminated_ty_opt(k, ret, m);
        },
        Ty::DynBound(bounds) => {
            marker_eliminated_bounds(k, bounds, m);
        },
        Ty::ImplBound(bounds) => {
            marker_eliminated_bounds(k, bounds, m);
        },
        Ty::Tuple(els) => {
            marker_eliminated_tys(k, els, m);
        },
        Ty::Paren(el) => {
            marker_eliminated_ty(k, *el, m);
        },
        _ => {},
    }
}

/// As `marker_eliminated_ty`, for the structure of a reference the table
/// did not match.
pub proof fn marker_eliminated_type_ref(k: TypeRef, tr: TypeRef, m: List<SubstPair>)
    requires
        has_match(m, k),
        marker_absent_from_values(m, k),
        values_absent_from_marker(m, k),
        lookup(m, tr) is None,
    ensures
        !occurs_type_ref(k, rw_type_ref(tr, m)),
    decreases tr,
{
    let u = rw_type_ref(tr, m);
    if u == k {
        if u == tr {
            assert(lookup(m, tr) == lookup(m, k));
            assert(false);
        } else {
            let q = change_leaves_value_type_ref(tr, m);
            assert(occurs_type_ref(q.value, k));
            assert(false);
        }
    }
    marker_eliminated_ty_opt(k, tr.qself, m);
    marker_eliminated_path(k, tr.path, m);
    assert(u.qself == rw_ty_opt(tr.qself, m));
    assert(u.path == rw_path(tr.path, m));
}

/// As `marker_eliminated_ty`, for an optional type.
pub proof fn marker_eliminated_ty_opt(k: TypeRef, o: Option<Box<Ty>>, m: List<SubstPair>)
    requires
        has_match(m, k),
        marker_absent_from_values(m, k),
        values_absent_from_marker(m, k),
    ensures
        !occurs_ty_opt(k, rw_ty_opt(o, m)),
    decreases o,
{
    match o {
        Option::Some(t) => {
            marker_eliminated_ty(k, *t, m);
        },
        Option::None => {},
    }
}

/// As `marker_eliminated_ty`, for a type list.
pub proof fn marker_eliminated_tys(k: TypeRef, l: List<Ty>, m: List<SubstPair>)
    requires
        has_match(m, k),
        marker_absent_from_values(m, k),
        values_absent_from_marker(m, k),
    ensures
        !occurs_tys(k, rw_tys(l, m)),
    decreases l,
{
    match l {
        List::Nil => {},
        List::Cons(t, rest) => {
            marker_eliminated_ty(k, *t, m);
            marker_eliminated_tys(k, *rest, m);
        },
    }
}

/// As `marker_eliminated_ty`, for a path.
pub proof fn marker_eliminated_path(k: TypeRef, p: Path, m: List<SubstPair>)
    requires
        has_match(m, k),
        marker_absent_from_values(m, k),
        values_absent_from_marker(m, k),
    ensures
        !occurs_path(k, rw_path(p, m)),
    decreases p,
{
    marker_eliminated_segs(k, p.segments, m);
}

/// As `marker_eliminated_ty`, for a segment list.
pub proof fn marker_eliminated_segs(k: TypeRef, l: List<PathSeg>, m: List<SubstPair>)
    requires
        has_match(m, k),
        marker_absent_from_values(m, k),
        values_absent_from_marker(m, k),
    ensures
        !occurs_segs(k, rw_segs(l, m)),
    decreases l,
{
    match l {
        List::Nil => {},
        List::Cons(s, rest) => {
            marker_eliminated_seg(k, *s, m);
            marker_eliminated_segs(k, *rest, m);
        },
    }
}

/// As `marker_eliminated_ty`, for a segment.
pub proof fn marker_eliminated_seg(k: TypeRef, s: PathSeg, m: List<SubstPair>)
    requires
        has_match(m, k),
        marker_absent_from_values(m, k),
        values_absent_from_marker(m, k),
    ensures
        !occurs_seg(k, rw_seg(s, m)),
    decreases s,
{
    marker_eliminated_path_args(k, s.args, m);
}

/// As `marker_eliminated_ty`, for an argument position.
pub proof fn marker_eliminated_path_args(k: TypeRef, a: PathArgs, m: List<SubstPair>)
    requires
        has_match(m, k),
        marker_absent_from_values(m, k),
        values_absent_from_marker(m, k),
    ensures
        !occurs_path_args(k, rw_path_args(a, m)),
    decreases a,
{
    match a {
        PathArgs::Plain => {},
        PathArgs::Angle(args) => {
            marker_eliminated_gen_args(k, args, m);
        },
        PathArgs::Paren(ins, out) => {
            marker_eliminated_tys(k, ins, m);
            marker_eliminated_ty_opt(k, out, m);
        },
    }
}

/// As `marker_eliminated_ty`, for an angle-bracketed argument list.
pub proof fn marker_eliminated_gen_args(k: TypeRef, l: List<GenArg>, m: List<SubstPair>)
    requires
        has_match(m, k),
        marker_absent_from_values(m, k),
        values_absent_from_marker(m, k),
    ensures
        !occurs_gen_args(k, rw_gen_args(l, m)),
    decreases l,
{
    match l {
        List::Nil => {},
        List::Cons(a, rest) => {
            marker_eliminated_gen_arg(k, *a, m);
            marker_eliminated_gen_args(k, *rest, m);
        },
    }
}

/// As `marker_eliminated_ty`, for a generic argument.
pub proof fn marker_eliminated_gen_arg(k: TypeRef, a: GenArg, m: List<SubstPair>)
    requires
        has_match(m, k),
        marker_absent_from_values(m, k),
        values_absent_from_marker(m, k),
    ensures
        !occurs_gen_arg(k, rw_gen_arg(a, m)),
    decreases a,
{
    match a {
        GenArg::TypeArg(t) => {
            marker_eliminated_ty(k, t, m);
        },
        GenArg::BindingArg(_, t) => {
            marker_eliminated_ty(k, t, m);
        },
        _ => {},
    }
}

/// As `marker_eliminated_ty`, for a bound list.
pub proof fn marker_eliminated_bounds(k: TypeRef, l: List<Bound>, m: List<SubstPair>)
    requires
        has_match(m, k),
        marker_absent_from_values(m, k),
        values_absent_from_marker(m, k),
    ensures
        !occurs_bounds(k, rw_bounds(l, m)),
    decreases l,
{
    match l {
        List::Nil => {},
        List::Cons(b, rest) => {
            marker_eliminated_bound(k, *b, m);
            marker_eliminated_bounds(k, *rest, m);
        },
    }
}

/// As `marker_eliminated_ty`, for a bound.
pub proof fn marker_eliminated_bound(k: TypeRef, b: Bound, m: List<SubstPair>)
    requires
        has_match(m, k),
        marker_absent_from_values(m, k),
        values_absent_from_marker(m, k),
    ensures
        !occurs_bound(k, rw_bound(b, m)),
    decreases b,
{
    match b {
        Bound::Interface(p) => {
            marker_eliminated_path(k, p, m);
        },
        Bound::LifetimeBound(_) => {},
    }
}

// ------------------------------------------------------------------
// Replacement is whole, exact, and skips opaque content
// ------------------------------------------------------------------

/// No re-descent into substitutes: at a matched reference the pass
/// inserts the mapped value itself. Even when that value again matches a
/// key — its own or another entry's — the nested match is not applied in
/// the same pass.
pub proof fn replaced_value_inserted_whole(tr: TypeRef, v: TypeRef, m: List<SubstPair>)
    requires
        lookup(m, tr) == Option::Some(v),
    ensures
        rw_ty(Ty::Named(tr), m) == Ty::Named(v),
{
}

/// Exact match only: a reference that equals no key — one that differs
/// from a key solely in its generic arguments, say — is not replaced; the
/// pass keeps the node and only descends into its structure.
pub proof fn no_exact_match_not_replaced(tr: TypeRef, m: List<SubstPair>)
    requires
        !has_match(m, tr),
    ensures
        rw_ty(Ty::Named(tr), m) == Ty::Named(rw_type_ref(tr, m)),
{
}

/// Opaque pass-through: token runs inside macro invocations, verbatim
/// blobs, imports and foreign blocks are not rewritten, whatever the
/// table holds.
pub proof fn opaque_pass_through(tokens: List<u8>, m: List<SubstPair>)
    ensures
        rw_ty(Ty::MacroTy(tokens), m) == Ty::MacroTy(tokens),
        rw_ty(Ty::Verbatim(tokens), m) == Ty::Verbatim(tokens),
        rw_expr(Expr::MacroExpr(tokens), m) == Expr::MacroExpr(tokens),
        rw_pat(Pat::MacroPat(tokens), m) == Pat::MacroPat(tokens),
        rw_stmt(Stmt::MacroStmt(tokens), m) == Stmt::MacroStmt(tokens),
        rw_item(Item::MacroItem(tokens), m) == Item::MacroItem(tokens),
        rw_item(Item::ForeignItem(tokens), m) == Item::ForeignItem(tokens),
        rw_item(Item::UseItem(tokens), m) == Item::UseItem(tokens),
{
}


// ------------------------------------------------------------------
// Occurrence of a marker reference in the outer grammar
// ------------------------------------------------------------------

/// Occurrence of `k` at a named-reference position, over this node kind.
pub open spec fn occurs_expr(k: TypeRef, x: Expr) -> bool
    decreases x,
{
    match x {
        Expr::Lit(_) => false,
        Expr::PathExpr(q, p) => occurs_ty_opt(k, q) || occurs_path(k, p),
        Expr::Unary(_, a) => occurs_expr(k, *a),
        Expr::Binary(_, a, b) => occurs_expr(k, *a) || occurs_expr(k, *b),
        Expr::Borrow(_, a) => occurs_expr(k, *a),
        Expr::Deref(a) => occurs_expr(k, *a),
        Expr::Cast(a, t) => occurs_expr(k, *a) || occurs_ty(k, *t),
        Expr::Call(f, args) => occurs_expr(k, *f) || occurs_exprs(k, args),
        Expr::MethodCall(recv, _, targs, args) => occurs_expr(k, *recv) || (match targs {
            Option::Some(l) => occurs_gen_args(k, l),
            Option::None => false,
        }) || occurs_exprs(k, args),
        Expr::Index(a, i) => occurs_expr(k, *a) || occurs_expr(k, *i),
        Expr::Range(lo, hi) => occurs_expr_opt(k, lo) || occurs_expr_opt(k, hi),
        Expr::StructLit(q, p, flds, rest) => occurs_ty_opt(k, q) || occurs_path(k, p) || occurs_field_vals(k, flds) || occurs_expr_opt(k, rest),
        Expr::Closure(ps, ret, body) => occurs_pats(k, ps) || occurs_ty_opt(k, ret) || occurs_expr(k, *body),
        Expr::IfExpr(c, t, e2) => occurs_expr(k, *c) || occurs_block(k, t) || occurs_expr_opt(k, e2),
        Expr::MatchExpr(s, ars) => occurs_expr(k, *s) || occurs_arms(k, ars),
        Expr::LoopExpr(b) => occurs_block(k, b),
        Expr::WhileExpr(c, b) => occurs_expr(k, *c) || occurs_block(k, b),
        Expr::ForExpr(pt, it, b) => occurs_pat(k, *pt) || occurs_expr(k, *it) || occurs_block(k, b),
        Expr::BlockExpr(b) => occurs_block(k, b),
        Expr::UncheckedBlock(b) => occurs_block(k, b),
        Expr::AsyncBlock(b) => occurs_block(k, b),
        Expr::ConstBlock(b) => occurs_block(k, b),
        Expr::Ret(a) => occurs_expr_opt(k, a),
        Expr::BreakExpr(a) => occurs_expr_opt(k, a),
        Expr::YieldExpr(a) => occurs_expr_opt(k, a),
        Expr::ContinueExpr => false,
        Expr::MacroExpr(_) => false,
    }
}

/// Occurrence of `k` at a named-reference position, over this node kind.
pub open spec fn occurs_expr_opt(k: TypeRef, x: Option<Box<Expr>>) -> bool
    decreases x,
{
    match x {
        Option::Some(e) => occurs_expr(k, *e),
        Option::None => false,
    }
}

/// Occurrence of `k` at a named-reference position, over this node kind.
pub open spec fn occurs_exprs(k: TypeRef, x: List<Expr>) -> bool
    decreases x,
{
    match x {
        List::Nil => false,
        List::Cons(e, rest) => occurs_expr(k, *e) || occurs_exprs(k, *rest),
    }
}

/// Occurrence of `k` at a named-reference position, over this node kind.
pub open spec fn occurs_field_vals(k: TypeRef, x: List<FieldVal>) -> bool
    decreases x,
{
    match x {
        List::Nil => false,
        List::Cons(f, rest) => occurs_expr(k, f.value) || occurs_field_vals(k, *rest),
    }
}

/// Occurrence of `k` at a named-reference position, over this node kind.
pub open spec fn occurs_arms(k: TypeRef, x: List<Arm>) -> bool
    decreases x,
{
    match x {
        List::Nil => false,
        List::Cons(a, rest) => occurs_pat(k, a.pat) || occurs_expr_opt(k, a.guard) || occurs_expr(k, a.body) || occurs_arms(k, *rest),
    }
}

/// Occurrence of `k` at a named-reference position, over this node kind.
pub open spec fn occurs_block(k: TypeRef, x: Block) -> bool
    decreases x,
{
    occurs_stmts(k, x.stmts)
}

/// Occurrence of `k` at a named-reference position, over this node kind.
pub open spec fn occurs_stmts(k: TypeRef, x: List<Stmt>) -> bool
    decreases x,
{
    match x {
        List::Nil => false,
        List::Cons(s, rest) => occurs_stmt(k, *s) || occurs_stmts(k, *rest),
    }
}

/// Occurrence of `k` at a named-reference position, over this node kind.
pub open spec fn occurs_stmt(k: TypeRef, x: Stmt) -> bool
    decreases x,
{
    match x {
        Stmt::LetStmt(pt, ty, init) => occurs_pat(k, *pt) || occurs_ty_opt(k, ty) || occurs_expr_opt(k, init),
        Stmt::ExprStmt(e) => occurs_expr(k, *e),
        Stmt::ItemStmt(it) => occurs_item(k, *it),
        Stmt::MacroStmt(_) => false,
    }
}

/// Occurrence of `k` at a named-reference position, over this node kind.
pub open spec fn occurs_pat(k: TypeRef, x: Pat) -> bool
    decreases x,
{
    match x {
        Pat::Wild => false,
        Pat::LitPat(_) => false,
        Pat::RangePat(_) => false,
        Pat::RestPat => false,
        Pat::PathPat(q, p) => occurs_ty_opt(k, q) || occurs_path(k, p),
        Pat::StructPat(q, p, flds) => occurs_ty_opt(k, q) || occurs_path(k, p) || occurs_field_pats(k, flds),
        Pat::TupleStructPat(q, p, els) => occurs_ty_opt(k, q) || occurs_path(k, p) || occurs_pats(k, els),
        Pat::TuplePat(els) => occurs_pats(k, els),
        Pat::SlicePat(els) => occurs_pats(k, els),
        Pat::OrPat(els) => occurs_pats(k, els),
        Pat::ParenPat(inner) => occurs_pat(k, *inner),
        Pat::BorrowPat(_, inner) => occurs_pat(k, *inner),
        Pat::TypedPat(inner, ty) => occurs_pat(k, *inner) || occurs_ty(k, *ty),
        Pat::MacroPat(_) => false,
    }
}

/// Occurrence of `k` at a named-reference position, over this node kind.
pub open spec fn occurs_pats(k: TypeRef, x: List<Pat>) -> bool
    decreases x,
{
    match x {
        List::Nil => false,
        List::Cons(p, rest) => occurs_pat(k, *p) || occurs_pats(k, *rest),
    }
}

/// Occurrence of `k` at a named-reference position, over this node kind.
pub open spec fn occurs_field_pats(k: TypeRef, x: List<FieldPat>) -> bool
    decreases x,
{
    match x {
        List::Nil => false,
        List::Cons(f, rest) => occurs_pat(k, f.pat) || occurs_field_pats(k, *rest),
    }
}

/// Occurrence of `k` at a named-reference position, over this node kind.
pub open spec fn occurs_item(k: TypeRef, x: Item) -> bool
    decreases x,
{
    match x {
        Item::FnItem(f) => occurs_fn_decl(k, f),
        Item::StructItem(_, g, flds) => occurs_generics(k, g) || occurs_fields(k, flds),
        Item::UnionItem(_, g, flds) => occurs_generics(k, g) || occurs_field_defs(k, flds),
        Item::EnumItem(_, g, vs) => occurs_generics(k, g) || occurs_variants(k, vs),
        Item::InterfaceItem(_, g, sup, its) => occurs_generics(k, g) || occurs_bounds(k, sup) || occurs_items(k, its),
        Item::InterfaceAliasItem(_, g, bs) => occurs_generics(k, g) || occurs_bounds(k, bs),
        Item::TypeAliasItem(_, g, bs, ty) => occurs_generics(k, g) || occurs_bounds(k, bs) || occurs_ty_opt(k, ty),
        Item::ConstItem(_, ty, init) => occurs_ty(k, *ty) || occurs_expr_opt(k, init),
        Item::StaticItem(_, ty, init) => occurs_ty(k, *ty) || occurs_expr_opt(k, init),
        Item::ImplItem(g, iface, st, its) => occurs_generics(k, g) || (match iface {
            Option::Some(p2) => occurs_path(k, p2),
            Option::None => false,
        }) || occurs_ty(k, *st) || occurs_items(k, its),
        Item::ModuleItem(_, its) => (match its {
            Option::Some(l) => occurs_items(k, l),
            Option::None => false,
        }),
        Item::UseItem(_) => false,
        Item::ForeignItem(_) => false,
        Item::MacroItem(_) => false,
    }
}

/// Occurrence of `k` at a named-reference position, over this node kind.
pub open spec fn occurs_items(k: TypeRef, x: List<Item>) -> bool
    decreases x,
{
    match x {
        List::Nil => false,
        List::Cons(it, rest) => occurs_item(k, *it) || occurs_items(k, *rest),
    }
}

/// Occurrence of `k` at a named-reference position, over this node kind.
pub open spec fn occurs_fn_decl(k: TypeRef, x: FnDecl) -> bool
    decreases x,
{
    occurs_generics(k, x.generics) || occurs_params(k, x.params) || occurs_ty_opt(k, x.ret) || (match x.body {
            Option::Some(b) => occurs_block(k, b),
            Option::None => false,
        })
}

/// Occurrence of `k` at a named-reference position, over this node kind.
pub open spec fn occurs_params(k: TypeRef, x: List<Param>) -> bool
    decreases x,
{
    match x {
        List::Nil => false,
        List::Cons(p, rest) => occurs_param(k, *p) || occurs_params(k, *rest),
    }
}

/// Occurrence of `k` at a named-reference position, over this node kind.
pub open spec fn occurs_param(k: TypeRef, x: Param) -> bool
    decreases x,
{
    match x {
        Param::Receiver(ty) => occurs_ty_opt(k, ty),
        Param::TypedParam(pt, ty) => occurs_pat(k, pt) || occurs_ty(k, ty),
    }
}

/// Occurrence of `k` at a named-reference position, over this node kind.
pub open spec fn occurs_fields(k: TypeRef, x: Fields) -> bool
    decreases x,
{
    match x {
        Fields::NamedFields(l) => occurs_field_defs(k, l),
        Fields::UnnamedFields(l) => occurs_tys(k, l),
        Fields::UnitFields => false,
    }
}

/// Occurrence of `k` at a named-reference position, over this node kind.
pub open spec fn occurs_field_defs(k: TypeRef, x: List<FieldDef>) -> bool
    decreases x,
{
    match x {
        List::Nil => false,
        List::Cons(f, rest) => occurs_ty(k, f.ty) || occurs_field_defs(k, *rest),
    }
}

/// Occurrence of `k` at a named-reference position, over this node kind.
pub open spec fn occurs_variants(k: TypeRef, x: List<Variant>) -> bool
    decreases x,
{
    match x {
        List::Nil => false,
        List::Cons(v, rest) => occurs_fields(k, v.fields) || occurs_expr_opt(k, v.discr) || occurs_variants(k, *rest),
    }
}

/// Occurrence of `k` at a named-reference position, over this node kind.
pub open spec fn occurs_generics(k: TypeRef, x: Generics) -> bool
    decreases x,
{
    occurs_generic_params(k, x.params) || occurs_where_preds(k, x.where_preds)
}

/// Occurrence of `k` at a named-reference position, over this node kind.
pub open spec fn occurs_generic_params(k: TypeRef, x: List<GenericParam>) -> bool
    decreases x,
{
    match x {
        List::Nil => false,
        List::Cons(p, rest) => occurs_generic_param(k, *p) || occurs_generic_params(k, *rest),
    }
}

/// Occurrence of `k` at a named-reference position, over this node kind.
pub open spec fn occurs_generic_param(k: TypeRef, x: GenericParam) -> bool
    decreases x,
{
    match x {
        GenericParam::TypeParam(_, bs) => occurs_bounds(k, bs),
        GenericParam::ConstParam(_, ty, dflt) => occurs_ty(k, ty) || occurs_expr_opt(k, dflt),
        GenericParam::LifetimeParam(_) => false,
    }
}

/// Occurrence of `k` at a named-reference position, over this node kind.
pub open spec fn occurs_where_preds(k: TypeRef, x: List<WherePred>) -> bool
    decreases x,
{
    match x {
        List::Nil => false,
        List::Cons(p, rest) => occurs_where_pred(k, *p) || occurs_where_preds(k, *rest),
    }
}

/// Occurrence of `k` at a named-reference position, over this node kind.
pub open spec fn occurs_where_pred(k: TypeRef, x: WherePred) -> bool
    decreases x,
{
    match x {
        WherePred::TypePred(ty, bs) => occurs_ty(k, ty) || occurs_bounds(k, bs),
        WherePred::LifetimePred(_) => false,
    }
}

/// Occurrence of `k` at a named-reference position, over this node kind.
pub open spec fn occurs_unit(k: TypeRef, x: SourceUnit) -> bool
    decreases x,
{
    occurs_items(k, x.items)
}


// ------------------------------------------------------------------
// Idempotence over the outer grammar
// ------------------------------------------------------------------

/// As `idempotent_ty`, lifted over this node kind.
pub proof fn idempotent_expr(x: Expr, m: List<SubstPair>)
    requires
        noninterfering(m),
    ensures
        rw_expr(rw_expr(x, m), m) == rw_expr(x, m),
    decreases x,
{
    match x {
        Expr::PathExpr(q, p) => {
            idempotent_ty_opt(q, m);
            idempotent_path(p, m);
        },
        Expr::Unary(_, a) => {
            idempotent_expr(*a, m);
        },
        Expr::Binary(_, a, b) => {
            idempotent_expr(*a, m);
            idempotent_expr(*b, m);
        },
        Expr::Borrow(_, a) => {
            idempotent_expr(*a, m);
        },
        Expr::Deref(a) => {
            idempotent_expr(*a, m);
        },
        Expr::Cast(a, t) => {
            idempotent_expr(*a, m);
            idempotent_ty(*t, m);
        },
        Expr::Call(f, args) => {
            idempotent_expr(*f, m);
            idempotent_exprs(args, m);
        },
        Expr::MethodCall(recv, _, targs, args) => {
            idempotent_expr(*recv, m);
            match targs {
                Option::Some(l) => {
                    idempotent_gen_args(l, m);
                },
                Option::None => {},
            }
            idempotent_exprs(args, m);
        },
        Expr::Index(a, i) => {
            idempotent_expr(*a, m);
            idempotent_expr(*i, m);
        },
        Expr::Range(lo, hi) => {
            idempotent_expr_opt(lo, m);
            idempotent_expr_opt(hi, m);
        },
        Expr::StructLit(q, p, flds, rest) => {
            idempotent_ty_opt(q, m);
            idempotent_path(p, m);
            idempotent_field_vals(flds, m);
            idempotent_expr_opt(rest, m);
        },
        Expr::Closure(ps, ret, body) => {
            idempotent_pats(ps, m);
            idempotent_ty_opt(ret, m);
            idempotent_expr(*body, m);
        },
        Expr::IfExpr(c, t, e2) => {
            idempotent_expr(*c, m);
            idempotent_block(t, m);
            idempotent_expr_opt(e2, m);
        },
        Expr::MatchExpr(s, ars) => {
            idempotent_expr(*s, m);
            idempotent_arms(ars, m);
        },
        Expr::LoopExpr(b) => {
            idempotent_block(b, m);
        },
        Expr::WhileExpr(c, b) => {
            idempotent_expr(*c, m);
            idempotent_block(b, m);
        },
        Expr::ForExpr(pt, it, b) => {
            idempotent_pat(*pt, m);
            idempotent_expr(*it, m);
            idempotent_block(b, m);
        },
        Expr::BlockExpr(b) => {
            idempotent_block(b, m);
        },
        Expr::UncheckedBlock(b) => {
            idempotent_block(b, m);
        },
        Expr::AsyncBlock(b) => {
            idempotent_block(b, m);
        },
        Expr::ConstBlock(b) => {
            idempotent_block(b, m);
        },
        Expr::Ret(a) => {
            idempotent_expr_opt(a, m);
        },
        Expr::BreakExpr(a) => {
            idempotent_expr_opt(a, m);
        },
        Expr::YieldExpr(a) => {
            idempotent_expr_opt(a, m);
        },
        _ => {},
    }
}

/// As `idempotent_ty`, lifted over this node kind.
pub proof fn idempotent_expr_opt(x: Option<Box<Expr>>, m: List<SubstPair>)
    requires
        noninterfering(m),
    ensures
        rw_expr_opt(rw_expr_opt(x, m), m) == rw_expr_opt(x, m),
    decreases x,
{
    match x {
        Option::Some(e) => {
            idempotent_expr(*e, m);
        },
        _ => {},
    }
}

/// As `idempotent_ty`, lifted over this node kind.
pub proof fn idempotent_exprs(x: List<Expr>, m: List<SubstPair>)
    requires
        noninterfering(m),
    ensures
        rw_exprs(rw_exprs(x, m), m) == rw_exprs(x, m),
    decreases x,
{
    match x {
        List::Cons(e, rest) => {
            idempotent_expr(*e, m);
            idempotent_exprs(*rest, m);
        },
        _ => {},
    }
}

/// As `idempotent_ty`, lifted over this node kind.
pub proof fn idempotent_field_vals(x: List<FieldVal>, m: List<SubstPair>)
    requires
        noninterfering(m),
    ensures
        rw_field_vals(rw_field_vals(x, m), m) == rw_field_vals(x, m),
    decreases x,
{
    match x {
        List::Cons(f, rest) => {
            idempotent_expr(f.value, m);
            idempotent_field_vals(*rest, m);
        },
        _ => {},
    }
}

/// As `idempotent_ty`, lifted over this node kind.
pub proof fn idempotent_arms(x: List<Arm>, m: List<SubstPair>)
    requires
        noninterfering(m),
    ensures
        rw_arms(rw_arms(x, m), m) == rw_arms(x, m),
    decreases x,
{
    match x {
        List::Cons(a, rest) => {
            idempotent_pat(a.pat, m);
            idempotent_expr_opt(a.guard, m);
            idempotent_expr(a.body, m);
            idempotent_arms(*rest, m);
        },
        _ => {},
    }
}

/// As `idempotent_ty`, lifted over this node kind.
pub proof fn idempotent_block(x: Block, m: List<SubstPair>)
    requires
        noninterfering(m),
    ensures
        rw_block(rw_block(x, m), m) == rw_block(x, m),
    decreases x,
{
    idempotent_stmts(x.stmts, m);
}

/// As `idempotent_ty`, lifted over this node kind.
pub proof fn idempotent_stmts(x: List<Stmt>, m: List<SubstPair>)
    requires
        noninterfering(m),
    ensures
        rw_stmts(rw_stmts(x, m), m) == rw_stmts(x, m),
    decreases x,
{
    match x {
        List::Cons(s, rest) => {
            idempotent_stmt(*s, m);
            idempotent_stmts(*rest, m);
        },
        _ => {},
    }
}

/// As `idempotent_ty`, lifted over this node kind.
pub proof fn idempotent_stmt(x: Stmt, m: List<SubstPair>)
    requires
        noninterfering(m),
    ensures
        rw_stmt(rw_stmt(x, m), m) == rw_stmt(x, m),
    decreases x,
{
    match x {
        Stmt::LetStmt(pt, ty, init) => {
            idempotent_pat(*pt, m);
            idempotent_ty_opt(ty, m);
            idempotent_expr_opt(init, m);
        },
        Stmt::ExprStmt(e) => {
            idempotent_expr(*e, m);
        },
        Stmt::ItemStmt(it) => {
            idempotent_item(*it, m);
        },
        _ => {},
    }
}

/// As `idempotent_ty`, lifted over this node kind.
pub proof fn idempotent_pat(x: Pat, m: List<SubstPair>)
    requires
        noninterfering(m),
    ensures
        rw_pat(rw_pat(x, m), m) == rw_pat(x, m),
    decreases x,
{
    match x {
        Pat::PathPat(q, p) => {
            idempotent_ty_opt(q, m);
            idempotent_path(p, m);
        },
        Pat::StructPat(q, p, flds) => {
            idempotent_ty_opt(q, m);
            idempotent_path(p, m);
            idempotent_field_pats(flds, m);
        },
        Pat::TupleStructPat(q, p, els) => {
            idempotent_ty_opt(q, m);
            idempotent_path(p, m);
            idempotent_pats(els, m);
        },
        Pat::TuplePat(els) => {
            idempotent_pats(els, m);
        },
        Pat::SlicePat(els) => {
            idempotent_pats(els, m);
        },
        Pat::OrPat(els) => {
            idempotent_pats(els, m);
        },
        Pat::ParenPat(inner) => {
            idempotent_pat(*inner, m);
        },
        Pat::BorrowPat(_, inner) => {
            idempotent_pat(*inner, m);
        },
        Pat::TypedPat(inner, ty) => {
            idempotent_pat(*inner, m);
            idempotent_ty(*ty, m);
        },
        _ => {},
    }
}

/// As `idempotent_ty`, lifted over this node kind.
pub proof fn idempotent_pats(x: List<Pat>, m: List<SubstPair>)
    requires
        noninterfering(m),
    ensures
        rw_pats(rw_pats(x, m), m) == rw_pats(x, m),
    decreases x,
{
    match x {
        List::Cons(p, rest) => {
            idempotent_pat(*p, m);
            idempotent_pats(*rest, m);
        },
        _ => {},
    }
}

/// As `idempotent_ty`, lifted over this node kind.
pub proof fn idempotent_field_pats(x: List<FieldPat>, m: List<SubstPair>)
    requires
        noninterfering(m),
    ensures
        rw_field_pats(rw_field_pats(x, m), m) == rw_field_pats(x, m),
    decreases x,
{
    match x {
        List::Cons(f, rest) => {
            idempotent_pat(f.pat, m);
            idempotent_field_pats(*rest, m);
        },
        _ => {},
    }
}

/// As `idempotent_ty`, lifted over this node kind.
pub proof fn idempotent_item(x: Item, m: List<SubstPair>)
    requires
        noninterfering(m),
    ensures
        rw_item(rw_item(x, m), m) == rw_item(x, m),
    decreases x,
{
    match x {
        Item::FnItem(f) => {
            idempotent_fn_decl(f, m);
        },
        Item::StructItem(_, g, flds) => {
            idempotent_generics(g, m);
            idempotent_fields(flds, m);
        },
        Item::UnionItem(_, g, flds) => {
            idempotent_generics(g, m);
            idempotent_field_defs(flds, m);
        },
        Item::EnumItem(_, g, vs) => {
            idempotent_generics(g, m);
            idempotent_variants(vs, m);
        },
        Item::InterfaceItem(_, g, sup, its) => {
            idempotent_generics(g, m);
            idempotent_bounds(sup, m);
            idempotent_items(its, m);
        },
        Item::InterfaceAliasItem(_, g, bs) => {
            idempotent_generics(g, m);
            idempotent_bounds(bs, m);
        },
        Item::TypeAliasItem(_, g, bs, ty) => {
            idempotent_generics(g, m);
            idempotent_bounds(bs, m);
            idempotent_ty_opt(ty, m);
        },
        Item::ConstItem(_, ty, init) => {
            idempotent_ty(*ty, m);
            idempotent_expr_opt(init, m);
        },
        Item::StaticItem(_, ty, init) => {
            idempotent_ty(*ty, m);
            idempotent_expr_opt(init, m);
        },
        Item::ImplItem(g, iface, st, its) => {
            idempotent_generics(g, m);
            match iface {
                Option::Some(p2) => {
                    idempotent_path(p2, m);
                },
                Option::None => {},
            }
            idempotent_ty(*st, m);
            idempotent_items(its, m);
        },
        Item::ModuleItem(_, its) => {
            match its {
                Option::Some(l) => {
                    idempotent_items(l, m);
                },
                Option::None => {},
            }
        },
        _ => {},
    }
}

/// As `idempotent_ty`, lifted over this node kind.
pub proof fn idempotent_items(x: List<Item>, m: List<SubstPair>)
    requires
        noninterfering(m),
    ensures
        rw_items(rw_items(x, m), m) == rw_items(x, m),
    decreases x,
{
    match x {
        List::Cons(it, rest) => {
            idempotent_item(*it, m);
            idempotent_items(*rest, m);
        },
        _ => {},
    }
}

/// As `idempotent_ty`, lifted over this node kind.
pub proof fn idempotent_fn_decl(x: FnDecl, m: List<SubstPair>)
    requires
        noninterfering(m),
    ensures
        rw_fn_decl(rw_fn_decl(x, m), m) == rw_fn_decl(x, m),
    decreases x,
{
    idempotent_generics(x.generics, m);
    idempotent_params(x.params, m);
    idempotent_ty_opt(x.ret, m);
    match x.body {
                Option::Some(b) => {
                    idempotent_block(b, m);
                },
                Option::None => {},
            }
}

/// As `idempotent_ty`, lifted over this node kind.
pub proof fn idempotent_params(x: List<Param>, m: List<SubstPair>)
    requires
        noninterfering(m),
    ensures
        rw_params(rw_params(x, m), m) == rw_params(x, m),
    decreases x,
{
    match x {
        List::Cons(p, rest) => {
            idempotent_param(*p, m);
            idempotent_params(*rest, m);
        },
        _ => {},
    }
}

/// As `idempotent_ty`, lifted over this node kind.
pub proof fn idempotent_param(x: Param, m: List<SubstPair>)
    requires
        noninterfering(m),
    ensures
        rw_param(rw_param(x, m), m) == rw_param(x, m),
    decreases x,
{
    match x {
        Param::Receiver(ty) => {
            idempotent_ty_opt(ty, m);
        },
        Param::TypedParam(pt, ty) => {
            idempotent_pat(pt, m);
            idempotent_ty(ty, m);
        },
    }
}

/// As `idempotent_ty`, lifted over this node kind.
pub proof fn idempotent_fields(x: Fields, m: List<SubstPair>)
    requires
        noninterfering(m),
    ensures
        rw_fields(rw_fields(x, m), m) == rw_fields(x, m),
    decreases x,
{
    match x {
        Fields::NamedFields(l) => {
            idempotent_field_defs(l, m);
        },
        Fields::UnnamedFields(l) => {
            idempotent_tys(l, m);
        },
        _ => {},
    }
}

/// As `idempotent_ty`, lifted over this node kind.
pub proof fn idempotent_field_defs(x: List<FieldDef>, m: List<SubstPair>)
    requires
        noninterfering(m),
    ensures
        rw_field_defs(rw_field_defs(x, m), m) == rw_field_defs(x, m),
    decreases x,
{
    match x {
        List::Cons(f, rest) => {
            idempotent_ty(f.ty, m);
            idempotent_field_defs(*rest, m);
        },
        _ => {},
    }
}

/// As `idempotent_ty`, lifted over this node kind.
pub proof fn idempotent_variants(x: List<Variant>, m: List<SubstPair>)
    requires
        noninterfering(m),
    ensures
        rw_variants(rw_variants(x, m), m) == rw_variants(x, m),
    decreases x,
{
    match x {
        List::Cons(v, rest) => {
            idempotent_fields(v.fields, m);
            idempotent_expr_opt(v.discr, m);
            idempotent_variants(*rest, m);
        },
        _ => {},
    }
}

/// As `idempotent_ty`, lifted over this node kind.
pub proof fn idempotent_generics(x: Generics, m: List<SubstPair>)
    requires
        noninterfering(m),
    ensures
        rw_generics(rw_generics(x, m), m) == rw_generics(x, m),
    decreases x,
{
    idempotent_generic_params(x.params, m);
    idempotent_where_preds(x.where_preds, m);
}

/// As `idempotent_ty`, lifted over this node kind.
pub proof fn idempotent_generic_params(x: List<GenericParam>, m: List<SubstPair>)
    requires
        noninterfering(m),
    ensures
        rw_generic_params(rw_generic_params(x, m), m) == rw_generic_params(x, m),
    decreases x,
{
    match x {
        List::Cons(p, rest) => {
            idempotent_generic_param(*p, m);
            idempotent_generic_params(*rest, m);
        },
        _ => {},
    }
}

/// As `idempotent_ty`, lifted over this node kind.
pub proof fn idempotent_generic_param(x: GenericParam, m: List<SubstPair>)
    requires
        noninterfering(m),
    ensures
        rw_generic_param(rw_generic_param(x, m), m) == rw_generic_param(x, m),
    decreases x,
{
    match x {
        GenericParam::TypeParam(_, bs) => {
            idempotent_bounds(bs, m);
        },
        GenericParam::ConstParam(_, ty, dflt) => {
            idempotent_ty(ty, m);
            idempotent_expr_opt(dflt, m);
        },
        _ => {},
    }
}

/// As `idempotent_ty`, lifted over this node kind.
pub proof fn idempotent_where_preds(x: List<WherePred>, m: List<SubstPair>)
    requires
        noninterfering(m),
    ensures
        rw_where_preds(rw_where_preds(x, m), m) == rw_where_preds(x, m),
    decreases x,
{
    match x {
        List::Cons(p, rest) => {
            idempotent_where_pred(*p, m);
            idempotent_where_preds(*rest, m);
        },
        _ => {},
    }
}

/// As `idempotent_ty`, lifted over this node kind.
pub proof fn idempotent_where_pred(x: WherePred, m: List<SubstPair>)
    requires
        noninterfering(m),
    ensures
        rw_where_pred(rw_where_pred(x, m), m) == rw_where_pred(x, m),
    decreases x,
{
    match x {
        WherePred::TypePred(ty, bs) => {
            idempotent_ty(ty, m);
            idempotent_bounds(bs, m);
        },
        _ => {},
    }
}

/// As `idempotent_ty`, lifted over this node kind.
pub proof fn idempotent_unit(x: SourceUnit, m: List<SubstPair>)
    requires
        noninterfering(m),
    ensures
        rw_unit(rw_unit(x, m), m) == rw_unit(x, m),
    decreases x,
{
    idempotent_items(x.items, m);
}


// ------------------------------------------------------------------
// Marker elimination over the outer grammar
// ------------------------------------------------------------------

/// As `marker_eliminated_ty`, lifted over this node kind.
pub proof fn marker_eliminated_expr(k: TypeRef, x: Expr, m: List<SubstPair>)
    requires
        has_match(m, k),
        marker_absent_from_values(m, k),
        values_absent_from_marker(m, k),
    ensures
        !occurs_expr(k, rw_expr(x, m)),
    decreases x,
{
    match x {
        Expr::PathExpr(q, p) => {
            marker_eliminated_ty_opt(k, q, m);
            marker_eliminated_path(k, p, m);
        },
        Expr::Unary(_, a) => {
            marker_eliminated_expr(k, *a, m);
        },
        Expr::Binary(_, a, b) => {
            marker_eliminated_expr(k, *a, m);
            marker_eliminated_expr(k, *b, m);
        },
        Expr::Borrow(_, a) => {
            marker_eliminated_expr(k, *a, m);
        },
        Expr::Deref(a) => {
            marker_eliminated_expr(k, *a, m);
        },
        Expr::Cast(a, t) => {
            marker_eliminated_expr(k, *a, m);
            marker_eliminated_ty(k, *t, m);
        },
        Expr::Call(f, args) => {
            marker_eliminated_expr(k, *f, m);
            marker_eliminated_exprs(k, args, m);
        },
        Expr::MethodCall(recv, _, targs, args) => {
            marker_eliminated_expr(k, *recv, m);
            match targs {
                Option::Some(l) => {
                    marker_eliminated_gen_args(k, l, m);
                },
                Option::None => {},
            }
            marker_eliminated_exprs(k, args, m);
        },
        Expr::Index(a, i) => {
            marker_eliminated_expr(k, *a, m);
            marker_eliminated_expr(k, *i, m);
        },
        Expr::Range(lo, hi) => {
            marker_eliminated_expr_opt(k, lo, m);
            marker_eliminated_expr_opt(k, hi, m);
        },
        Expr::StructLit(q, p, flds, rest) => {
            marker_eliminated_ty_opt(k, q, m);
            marker_eliminated_path(k, p, m);
            marker_eliminated_field_vals(k, flds, m);
            marker_eliminated_expr_opt(k, rest, m);
        },
        Expr::Closure(ps, ret, body) => {
            marker_eliminated_pats(k, ps, m);
            marker_eliminated_ty_opt(k, ret, m);
            marker_eliminated_expr(k, *body, m);
        },
        Expr::IfExpr(c, t, e2) => {
            marker_eliminated_expr(k, *c, m);
            marker_eliminated_block(k, t, m);
            marker_eliminated_expr_opt(k, e2, m);
        },
        Expr::MatchExpr(s, ars) => {
            marker_eliminated_expr(k, *s, m);
            marker_eliminated_arms(k, ars, m);
        },
        Expr::LoopExpr(b) => {
            marker_eliminated_block(k, b, m);
        },
        Expr::WhileExpr(c, b) => {
            marker_eliminated_expr(k, *c, m);
            marker_eliminated_block(k, b, m);
        },
        Expr::ForExpr(pt, it, b) => {
            marker_eliminated_pat(k, *pt, m);
            marker_eliminated_expr(k, *it, m);
            marker_eliminated_block(k, b, m);
        },
        Expr::BlockExpr(b) => {
            marker_eliminated_block(k, b, m);
        },
        Expr::UncheckedBlock(b) => {
            marker_eliminated_block(k, b, m);
        },
        Expr::AsyncBlock(b) => {
            marker_eliminated_block(k, b, m);
        },
        Expr::ConstBlock(b) => {
            marker_eliminated_block(k, b, m);
        },
        Expr::Ret(a) => {
            marker_eliminated_expr_opt(k, a, m);
        },
        Expr::BreakExpr(a) => {
            marker_eliminated_expr_opt(k, a, m);
        },
        Expr::YieldExpr(a) => {
            marker_eliminated_expr_opt(k, a, m);
        },
        _ => {},
    }
}

/// As `marker_eliminated_ty`, lifted over this node kind.
pub proof fn marker_eliminated_expr_opt(k: TypeRef, x: Option<Box<Expr>>, m: List<SubstPair>)
    requires
        has_match(m, k),
        marker_absent_from_values(m, k),
        values_absent_from_marker(m, k),
    ensures
        !occurs_expr_opt(k, rw_expr_opt(x, m)),
    decreases x,
{
    match x {
        Option::Some(e) => {
            marker_eliminated_expr(k, *e, m);
        },
        _ => {},
    }
}

/// As `marker_eliminated_ty`, lifted over this node kind.
pub proof fn marker_eliminated_exprs(k: TypeRef, x: List<Expr>, m: List<SubstPair>)
    requires
        has_match(m, k),
        marker_absent_from_values(m, k),
        values_absent_from_marker(m, k),
    ensures
        !occurs_exprs(k, rw_exprs(x, m)),
    decreases x,
{
    match x {
        List::Cons(e, rest) => {
            marker_eliminated_expr(k, *e, m);
            marker_eliminated_exprs(k, *rest, m);
        },
        _ => {},
    }
}

/// As `marker_eliminated_ty`, lifted over this node kind.
pub proof fn marker_eliminated_field_vals(k: TypeRef, x: List<FieldVal>, m: List<SubstPair>)
    requires
        has_match(m, k),
        marker_absent_from_values(m, k),
        values_absent_from_marker(m, k),
    ensures
        !occurs_field_vals(k, rw_field_vals(x, m)),
    decreases x,
{
    match x {
        List::Cons(f, rest) => {
            marker_eliminated_expr(k, f.value, m);
            marker_eliminated_field_vals(k, *rest, m);
        },
        _ => {},
    }
}

/// As `marker_eliminated_ty`, lifted over this node kind.
pub proof fn marker_eliminated_arms(k: TypeRef, x: List<Arm>, m: List<SubstPair>)
    requires
        has_match(m, k),
        marker_absent_from_values(m, k),
        values_absent_from_marker(m, k),
    ensures
        !occurs_arms(k, rw_arms(x, m)),
    decreases x,
{
    match x {
        List::Cons(a, rest) => {
            marker_eliminated_pat(k, a.pat, m);
            marker_eliminated_expr_opt(k, a.guard, m);
            marker_eliminated_expr(k, a.body, m);
            marker_eliminated_arms(k, *rest, m);
        },
        _ => {},
    }
}

/// As `marker_eliminated_ty`, lifted over this node kind.
pub proof fn marker_eliminated_block(k: TypeRef, x: Block, m: List<SubstPair>)
    requires
        has_match(m, k),
        marker_absent_from_values(m, k),
        values_absent_from_marker(m, k),
    ensures
        !occurs_block(k, rw_block(x, m)),
    decreases x,
{
    marker_eliminated_stmts(k, x.stmts, m);
}

/// As `marker_eliminated_ty`, lifted over this node kind.
pub proof fn marker_eliminated_stmts(k: TypeRef, x: List<Stmt>, m: List<SubstPair>)
    requires
        has_match(m, k),
        marker_absent_from_values(m, k),
        values_absent_from_marker(m, k),
    ensures
        !occurs_stmts(k, rw_stmts(x, m)),
    decreases x,
{
    match x {
        List::Cons(s, rest) => {
            marker_eliminated_stmt(k, *s, m);
            marker_eliminated_stmts(k, *rest, m);
        },
        _ => {},
    }
}

/// As `marker_eliminated_ty`, lifted over this node kind.
pub proof fn marker_eliminated_stmt(k: TypeRef, x: Stmt, m: List<SubstPair>)
    requires
        has_match(m, k),
        marker_absent_from_values(m, k),
        values_absent_from_marker(m, k),
    ensures
        !occurs_stmt(k, rw_stmt(x, m)),
    decreases x,
{
    match x {
        Stmt::LetStmt(pt, ty, init) => {
            marker_eliminated_pat(k, *pt, m);
            marker_eliminated_ty_opt(k, ty, m);
            marker_eliminated_expr_opt(k, init, m);
        },
        Stmt::ExprStmt(e) => {
            marker_eliminated_expr(k, *e, m);
        },
        Stmt::ItemStmt(it) => {
            marker_eliminated_item(k, *it, m);
        },
        _ => {},
    }
}

/// As `marker_eliminated_ty`, lifted over this node kind.
pub proof fn marker_eliminated_pat(k: TypeRef, x: Pat, m: List<SubstPair>)
    requires
        has_match(m, k),
        marker_absent_from_values(m, k),
        values_absent_from_marker(m, k),
    ensures
        !occurs_pat(k, rw_pat(x, m)),
    decreases x,
{
    match x {
        Pat::PathPat(q, p) => {
            marker_eliminated_ty_opt(k, q, m);
            marker_eliminated_path(k, p, m);
        },
        Pat::StructPat(q, p, flds) => {
            marker_eliminated_ty_opt(k, q, m);
            marker_eliminated_path(k, p, m);
            marker_eliminated_field_pats(k, flds, m);
        },
        Pat::TupleStructPat(q, p, els) => {
            marker_eliminated_ty_opt(k, q, m);
            marker_eliminated_path(k, p, m);
            marker_eliminated_pats(k, els, m);
        },
        Pat::TuplePat(els) => {
            marker_eliminated_pats(k, els, m);
        },
        Pat::SlicePat(els) => {
            marker_eliminated_pats(k, els, m);
        },
        Pat::OrPat(els) => {
            marker_eliminated_pats(k, els, m);
        },
        Pat::ParenPat(inner) => {
            marker_eliminated_pat(k, *inner, m);
        },
        Pat::BorrowPat(_, inner) => {
            marker_eliminated_pat(k, *inner, m);
        },
        Pat::TypedPat(inner, ty) => {
            marker_eliminated_pat(k, *inner, m);
            marker_eliminated_ty(k, *ty, m);
        },
        _ => {},
    }
}

/// As `marker_eliminated_ty`, lifted over this node kind.
pub proof fn marker_eliminated_pats(k: TypeRef, x: List<Pat>, m: List<SubstPair>)
    requires
        has_match(m, k),
        marker_absent_from_values(m, k),
        values_absent_from_marker(m, k),
    ensures
        !occurs_pats(k, rw_pats(x, m)),
    decreases x,
{
    match x {
        List::Cons(p, rest) => {
            marker_eliminated_pat(k, *p, m);
            marker_eliminated_pats(k, *rest, m);
        },
        _ => {},
    }
}

/// As `marker_eliminated_ty`, lifted over this node kind.
pub proof fn marker_eliminated_field_pats(k: TypeRef, x: List<FieldPat>, m: List<SubstPair>)
    requires
        has_match(m, k),
        marker_absent_from_values(m, k),
        values_absent_from_marker(m, k),
    ensures
        !occurs_field_pats(k, rw_field_pats(x, m)),
    decreases x,
{
    match x {
        List::Cons(f, rest) => {
            marker_eliminated_pat(k, f.pat, m);
            marker_eliminated_field_pats(k, *rest, m);
        },
        _ => {},
    }
}

/// As `marker_eliminated_ty`, lifted over this node kind.
pub proof fn marker_eliminated_item(k: TypeRef, x: Item, m: List<SubstPair>)
    requires
        has_match(m, k),
        marker_absent_from_values(m, k),
        values_absent_from_marker(m, k),
    ensures
        !occurs_item(k, rw_item(x, m)),
    decreases x,
{
    match x {
        Item::FnItem(f) => {
            marker_eliminated_fn_decl(k, f, m);
        },
        Item::StructItem(_, g, flds) => {
            marker_eliminated_generics(k, g, m);
            marker_eliminated_fields(k, flds, m);
        },
        Item::UnionItem(_, g, flds) => {
            marker_eliminated_generics(k, g, m);
            marker_eliminated_field_defs(k, flds, m);
        },
        Item::EnumItem(_, g, vs) => {
            marker_eliminated_generics(k, g, m);
            marker_eliminated_variants(k, vs, m);
        },
        Item::InterfaceItem(_, g, sup, its) => {
            marker_eliminated_generics(k, g, m);
            marker_eliminated_bounds(k, sup, m);
            marker_eliminated_items(k, its, m);
        },
        Item::InterfaceAliasItem(_, g, bs) => {
            marker_eliminated_generics(k, g, m);
            marker_eliminated_bounds(k, bs, m);
        },
        Item::TypeAliasItem(_, g, bs, ty) => {
            marker_eliminated_generics(k, g, m);
            marker_eliminated_bounds(k, bs, m);
            marker_eliminated_ty_opt(k, ty, m);
        },
        Item::ConstItem(_, ty, init) => {
            marker_eliminated_ty(k, *ty, m);
            marker_eliminated_expr_opt(k, init, m);
        },
        Item::StaticItem(_, ty, init) => {
            marker_eliminated_ty(k, *ty, m);
            marker_eliminated_expr_opt(k, init, m);
        },
        Item::ImplItem(g, iface, st, its) => {
            marker_eliminated_generics(k, g, m);
            match iface {
                Option::Some(p2) => {
                    marker_eliminated_path(k, p2, m);
                },
                Option::None => {},
            }
            marker_eliminated_ty(k, *st, m);
            marker_eliminated_items(k, its, m);
        },
        Item::ModuleItem(_, its) => {
            match its {
                Option::Some(l) => {
                    marker_eliminated_items(k, l, m);
                },
                Option::None => {},
            }
        },
        _ => {},
    }
}

/// As `marker_eliminated_ty`, lifted over this node kind.
pub proof fn marker_eliminated_items(k: TypeRef, x: List<Item>, m: List<SubstPair>)
    requires
        has_match(m, k),
        marker_absent_from_values(m, k),
        values_absent_from_marker(m, k),
    ensures
        !occurs_items(k, rw_items(x, m)),
    decreases x,
{
    match x {
        List::Cons(it, rest) => {
            marker_eliminated_item(k, *it, m);
            marker_eliminated_items(k, *rest, m);
        },
        _ => {},
    }
}

/// As `marker_eliminated_ty`, lifted over this node kind.
pub proof fn marker_eliminated_fn_decl(k: TypeRef, x: FnDecl, m: List<SubstPair>)
    requires
        has_match(m, k),
        marker_absent_from_values(m, k),
        values_absent_from_marker(m, k),
    ensures
        !occurs_fn_decl(k, rw_fn_decl(x, m)),
    decreases x,
{
    marker_eliminated_generics(k, x.generics, m);
    marker_eliminated_params(k, x.params, m);
    marker_eliminated_ty_opt(k, x.ret, m);
    match x.body {
                Option::Some(b) => {
                    marker_eliminated_block(k, b, m);
                },
                Option::None => {},
            }
}

/// As `marker_eliminated_ty`, lifted over this node kind.
pub proof fn marker_eliminated_params(k: TypeRef, x: List<Param>, m: List<SubstPair>)
    requires
        has_match(m, k),
        marker_absent_from_values(m, k),
        values_absent_from_marker(m, k),
    ensures
        !occurs_params(k, rw_params(x, m)),
    decreases x,
{
    match x {
        List::Cons(p, rest) => {
            marker_eliminated_param(k, *p, m);
            marker_eliminated_params(k, *rest, m);
        },
        _ => {},
    }
}

/// As `marker_eliminated_ty`, lifted over this node kind.
pub proof fn marker_eliminated_param(k: TypeRef, x: Param, m: List<SubstPair>)
    requires
        has_match(m, k),
        marker_absent_from_values(m, k),
        values_absent_from_marker(m, k),
    ensures
        !occurs_param(k, rw_param(x, m)),
    decreases x,
{
    match x {
        Param::Receiver(ty) => {
            marker_eliminated_ty_opt(k, ty, m);
        },
        Param::TypedParam(pt, ty) => {
            marker_eliminated_pat(k, pt, m);
            marker_eliminated_ty(k, ty, m);
        },
    }
}

/// As `marker_eliminated_ty`, lifted over this node kind.
pub proof fn marker_eliminated_fields(k: TypeRef, x: Fields, m: List<SubstPair>)
    requires
        has_match(m, k),
        marker_absent_from_values(m, k),
        values_absent_from_marker(m, k),
    ensures
        !occurs_fields(k, rw_fields(x, m)),
    decreases x,
{
    match x {
        Fields::NamedFields(l) => {
            marker_eliminated_field_defs(k, l, m);
        },
        Fields::UnnamedFields(l) => {
            marker_eliminated_tys(k, l, m);
        },
        _ => {},
    }
}

/// As `marker_eliminated_ty`, lifted over this node kind.
pub proof fn marker_eliminated_field_defs(k: TypeRef, x: List<FieldDef>, m: List<SubstPair>)
    requires
        has_match(m, k),
        marker_absent_from_values(m, k),
        values_absent_from_marker(m, k),
    ensures
        !occurs_field_defs(k, rw_field_defs(x, m)),
    decreases x,
{
    match x {
        List::Cons(f, rest) => {
            marker_eliminated_ty(k, f.ty, m);
            marker_eliminated_field_defs(k, *rest, m);
        },
        _ => {},
    }
}

/// As `marker_eliminated_ty`, lifted over this node kind.
pub proof fn marker_eliminated_variants(k: TypeRef, x: List<Variant>, m: List<SubstPair>)
    requires
        has_match(m, k),
        marker_absent_from_values(m, k),
        values_absent_from_marker(m, k),
    ensures
        !occurs_variants(k, rw_variants(x, m)),
    decreases x,
{
    match x {
        List::Cons(v, rest) => {
            marker_eliminated_fields(k, v.fields, m);
            marker_eliminated_expr_opt(k, v.discr, m);
            marker_eliminated_variants(k, *rest, m);
        },
        _ => {},
    }
}

/// As `marker_eliminated_ty`, lifted over this node kind.
pub proof fn marker_eliminated_generics(k: TypeRef, x: Generics, m: List<SubstPair>)
    requires
        has_match(m, k),
        marker_absent_from_values(m, k),
        values_absent_from_marker(m, k),
    ensures
        !occurs_generics(k, rw_generics(x, m)),
    decreases x,
{
    marker_eliminated_generic_params(k, x.params, m);
    marker_eliminated_where_preds(k, x.where_preds, m);
}

/// As `marker_eliminated_ty`, lifted over this node kind.
pub proof fn marker_eliminated_generic_params(k: TypeRef, x: List<GenericParam>, m: List<SubstPair>)
    requires
        has_match(m, k),
        marker_absent_from_values(m, k),
        values_absent_from_marker(m, k),
    ensures
        !occurs_generic_params(k, rw_generic_params(x, m)),
    decreases x,
{
    match x {
        List::Cons(p, rest) => {
            marker_eliminated_generic_param(k, *p, m);
            marker_eliminated_generic_params(k, *rest, m);
        },
        _ => {},
    }
}

/// As `marker_eliminated_ty`, lifted over this node kind.
pub proof fn marker_eliminated_generic_param(k: TypeRef, x: GenericParam, m: List<SubstPair>)
    requires
        has_match(m, k),
        marker_absent_from_values(m, k),
        values_absent_from_marker(m, k),
    ensures
        !occurs_generic_param(k, rw_generic_param(x, m)),
    decreases x,
{
    match x {
        GenericParam::TypeParam(_, bs) => {
            marker_eliminated_bounds(k, bs, m);
        },
        GenericParam::ConstParam(_, ty, dflt) => {
            marker_eliminated_ty(k, ty, m);
            marker_eliminated_expr_opt(k, dflt, m);
        },
        _ => {},
    }
}

/// As `marker_eliminated_ty`, lifted over this node kind.
pub proof fn marker_eliminated_where_preds(k: TypeRef, x: List<WherePred>, m: List<SubstPair>)
    requires
        has_match(m, k),
        marker_absent_from_values(m, k),
        values_absent_from_marker(m, k),
    ensures
        !occurs_where_preds(k, rw_where_preds(x, m)),
    decreases x,
{
    match x {
        List::Cons(p, rest) => {
            marker_eliminated_where_pred(k, *p, m);
            marker_eliminated_where_preds(k, *rest, m);
        },
        _ => {},
    }
}

/// As `marker_eliminated_ty`, lifted over this node kind.
pub proof fn marker_eliminated_where_pred(k: TypeRef, x: WherePred, m: List<SubstPair>)
    requires
        has_match(m, k),
        marker_absent_from_values(m, k),
        values_absent_from_marker(m, k),
    ensures
        !occurs_where_pred(k, rw_where_pred(x, m)),
    decreases x,
{
    match x {
        WherePred::TypePred(ty, bs) => {
            marker_eliminated_ty(k, ty, m);
            marker_eliminated_bounds(k, bs, m);
        },
        _ => {},
    }
}

/// As `marker_eliminated_ty`, lifted over this node kind.
pub proof fn marker_eliminated_unit(k: TypeRef, x: SourceUnit, m: List<SubstPair>)
    requires
        has_match(m, k),
        marker_absent_from_values(m, k),
        values_absent_from_marker(m, k),
    ensures
        !occurs_unit(k, rw_unit(x, m)),
    decreases x,
{
    marker_eliminated_items(k, x.items, m);
}

} // verus!
