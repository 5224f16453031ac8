//! The executable rewrite engine, proved equal to the pass that
//! `crate::subst` defines.

use vstd::prelude::*;

use crate::ast::Arm;
use crate::ast::Block;
use crate::ast::Bound;
use crate::ast::Expr;
use crate::ast::FieldDef;
use crate::ast::FieldPat;
use crate::ast::FieldVal;
use crate::ast::Fields;
use crate::ast::FnDecl;
use crate::ast::GenArg;
use crate::ast::GenericParam;
use crate::ast::Generics;
use crate::ast::Item;
use crate::ast::List;
use crate::ast::Param;
use crate::ast::Pat;
use crate::ast::Path;
use crate::ast::PathArgs;
use crate::ast::PathSeg;
use crate::ast::SourceUnit;
use crate::ast::Stmt;
use crate::ast::Ty;
use crate::ast::TypeRef;
use crate::ast::Variant;
use crate::ast::WherePred;
use crate::subst::lookup;
use crate::subst::rw_arms;
use crate::subst::rw_block;
use crate::subst::rw_bound;
use crate::subst::rw_bounds;
use crate::subst::rw_expr;
use crate::subst::rw_expr_opt;
use crate::subst::rw_exprs;
use crate::subst::rw_field_defs;
use crate::subst::rw_field_pats;
use crate::subst::rw_field_vals;
use crate::subst::rw_fields;
use crate::subst::rw_fn_decl;
use crate::subst::rw_gen_arg;
use crate::subst::rw_gen_args;
use crate::subst::rw_generic_param;
use crate::subst::rw_generic_params;
use crate::subst::rw_generics;
use crate::subst::rw_item;
use crate::subst::rw_items;
use crate::subst::rw_param;
use crate::subst::rw_params;
use crate::subst::rw_pat;
use crate::subst::rw_path;
use crate::subst::rw_path_args;
use crate::subst::rw_pats;
use crate::subst::rw_seg;
use crate::subst::rw_segs;
use crate::subst::rw_stmt;
use crate::subst::rw_stmts;
use crate::subst::rw_ty;
use crate::subst::rw_ty_opt;
use crate::subst::rw_type_ref;
use crate::subst::rw_tys;
use crate::subst::rw_unit;
use crate::subst::rw_variants;
use crate::subst::rw_where_pred;
use crate::subst::rw_where_preds;
use crate::subst::SubstPair;

verus! {

// ------------------------------------------------------------------
// Structural equality on the type grammar
// ------------------------------------------------------------------

/// Whether two names (or token runs) hold the same bytes.
pub fn eq_name(a: &List<u8>, b: &List<u8>) -> (r: bool)
    ensures
        r == (*a == *b),
    decreases a,
{
    match (a, b) {
        (List::Nil, List::Nil) => true,
        (List::Cons(x, xs), List::Cons(y, ys)) => **x == **y && eq_name(xs, ys),
        _ => false,
    }
}

/// Whether two optional names are equal.
pub fn eq_name_opt(a: &Option<List<u8>>, b: &Option<List<u8>>) -> (r: bool)
    ensures
        r == (*a == *b),
{
    match (a, b) {
        (Option::None, Option::None) => true,
        (Option::Some(x), Option::Some(y)) => eq_name(x, y),
        _ => false,
    }
}

/// Whether two types are structurally equal.
pub fn eq_ty(a: &Ty, b: &Ty) -> (r: bool)
    ensures
        r == (*a == *b),
    decreases a,
{
    match (a, b) {
        (Ty::Named(x), Ty::Named(y)) => eq_type_ref(x, y),
        (Ty::Array(x, xl), Ty::Array(y, yl)) => eq_ty(x, y) && eq_name(xl, yl),
        (Ty::Slice(x), Ty::Slice(y)) => eq_ty(x, y),
        (Ty::Borrowed(xl, xm, x), Ty::Borrowed(yl, ym, y)) => eq_name_opt(xl, yl) && xm == ym
            && eq_ty(x, y),
        (Ty::Pointer(xm, x), Ty::Pointer(ym, y)) => xm == ym && eq_ty(x, y),
        (Ty::FnSig(xp, xr), Ty::FnSig(yp, yr)) => eq_tys(xp, yp) && eq_ty_opt(xr, yr),
        (Ty::DynBound(x), Ty::DynBound(y)) => eq_bounds(x, y),
        (Ty::ImplBound(x), Ty::ImplBound(y)) => eq_bounds(x, y),
        (Ty::Tuple(x), Ty::Tuple(y)) => eq_tys(x, y),
        (Ty::Paren(x), Ty::Paren(y)) => eq_ty(x, y),
        (Ty::Infer, Ty::Infer) => true,
        (Ty::Never, Ty::Never) => true,
        (Ty::MacroTy(x), Ty::MacroTy(y)) => eq_name(x, y),
        (Ty::Verbatim(x), Ty::Verbatim(y)) => eq_name(x, y),
        _ => false,
    }
}

/// Whether two optional types are structurally equal.
pub fn eq_ty_opt(a: &Option<Box<Ty>>, b: &Option<Box<Ty>>) -> (r: bool)
    ensures
        r == (*a == *b),
    decreases a,
{
    match (a, b) {
        (Option::None, Option::None) => true,
        (Option::Some(x), Option::Some(y)) => eq_ty(x, y),
        _ => false,
    }
}

/// Whether two type lists are structurally equal.
pub fn eq_tys(a: &List<Ty>, b: &List<Ty>) -> (r: bool)
    ensures
        r == (*a == *b),
    decreases a,
{
    match (a, b) {
        (List::Nil, List::Nil) => true,
        (List::Cons(x, xs), List::Cons(y, ys)) => eq_ty(x, y) && eq_tys(xs, ys),
        _ => false,
    }
}

/// Whether two type references are structurally equal: every segment,
/// argument and qualifier must match.
pub fn eq_type_ref(a: &TypeRef, b: &TypeRef) -> (r: bool)
    ensures
        r == (*a == *b),
    decreases a,
{
    eq_ty_opt(&a.qself, &b.qself) && eq_path(&a.path, &b.path)
}

/// Whether two paths are structurally equal.
pub fn eq_path(a: &Path, b: &Path) -> (r: bool)
    ensures
        r == (*a == *b),
    decreases a,
{
    eq_segs(&a.segments, &b.segments)
}

/// Whether two segment lists are structurally equal.
pub fn eq_segs(a: &List<PathSeg>, b: &List<PathSeg>) -> (r: bool)
    ensures
        r == (*a == *b),
    decreases a,
{
    match (a, b) {
        (List::Nil, List::Nil) => true,
        (List::Cons(x, xs), List::Cons(y, ys)) => eq_seg(x, y) && eq_segs(xs, ys),
        _ => false,
    }
}

/// Whether two segments are structurally equal.
pub fn eq_seg(a: &PathSeg, b: &PathSeg) -> (r: bool)
    ensures
        r == (*a == *b),
    decreases a,
{
    eq_name(&a.name, &b.name) && eq_path_args(&a.args, &b.args)
}

/// Whether two argument positions are structurally equal.
pub fn eq_path_args(a: &PathArgs, b: &PathArgs) -> (r: bool)
    ensures
        r == (*a == *b),
    decreases a,
{
    match (a, b) {
        (PathArgs::Plain, PathArgs::Plain) => true,
        (PathArgs::Angle(x), PathArgs::Angle(y)) => eq_gen_args(x, y),
        (PathArgs::Paren(xi, xo), PathArgs::Paren(yi, yo)) => eq_tys(xi, yi) && eq_ty_opt(xo, yo),
        _ => false,
    }
}

/// Whether two angle-bracketed argument lists are structurally equal.
pub fn eq_gen_args(a: &List<GenArg>, b: &List<GenArg>) -> (r: bool)
    ensures
        r == (*a == *b),
    decreases a,
{
    match (a, b) {
        (List::Nil, List::Nil) => true,
        (List::Cons(x, xs), List::Cons(y, ys)) => eq_gen_arg(x, y) && eq_gen_args(xs, ys),
        _ => false,
    }
}

/// Whether two generic arguments are structurally equal.
pub fn eq_gen_arg(a: &GenArg, b: &GenArg) -> (r: bool)
    ensures
        r == (*a == *b),
    decreases a,
{
    match (a, b) {
        (GenArg::TypeArg(x), GenArg::TypeArg(y)) => eq_ty(x, y),
        (GenArg::ConstArg(x), GenArg::ConstArg(y)) => eq_name(x, y),
        (GenArg::LifetimeArg(x), GenArg::LifetimeArg(y)) => eq_name(x, y),
        (GenArg::BindingArg(xn, x), GenArg::BindingArg(yn, y)) => eq_name(xn, yn) && eq_ty(x, y),
        _ => false,
    }
}

/// Whether two bound lists are structurally equal.
pub fn eq_bounds(a: &List<Bound>, b: &List<Bound>) -> (r: bool)
    ensures
        r == (*a == *b),
    decreases a,
{
    match (a, b) {
        (List::Nil, List::Nil) => true,
        (List::Cons(x, xs), List::Cons(y, ys)) => eq_bound(x, y) && eq_bounds(xs, ys),
        _ => false,
    }
}

/// Whether two bounds are structurally equal.
pub fn eq_bound(a: &Bound, b: &Bound) -> (r: bool)
    ensures
        r == (*a == *b),
    decreases a,
{
    match (a, b) {
        (Bound::Interface(x), Bound::Interface(y)) => eq_path(x, y),
        (Bound::LifetimeBound(x), Bound::LifetimeBound(y)) => eq_name(x, y),
        _ => false,
    }
}

// ------------------------------------------------------------------
// Deep copies of the type grammar
// ------------------------------------------------------------------

/// A copy of a name or token run.
pub fn copy_name(a: &List<u8>) -> (r: List<u8>)
    ensures
        r == *a,
    decreases a,
{
    match a {
        List::Nil => List::Nil,
        List::Cons(x, xs) => List::Cons(Box::new(**x), Box::new(copy_name(xs))),
    }
}

/// A copy of an optional name.
pub fn copy_name_opt(a: &Option<List<u8>>) -> (r: Option<List<u8>>)
    ensures
        r == *a,
{
    match a {
        Option::None => Option::None,
        Option::Some(x) => Option::Some(copy_name(x)),
    }
}

/// A deep copy of a type.
pub fn copy_ty(a: &Ty) -> (r: Ty)
    ensures
        r == *a,
    decreases a,
{
    match a {
        Ty::Named(tr) => Ty::Named(copy_type_ref(tr)),
        Ty::Array(el, len) => Ty::Array(Box::new(copy_ty(el)), copy_name(len)),
        Ty::Slice(el) => Ty::Slice(Box::new(copy_ty(el))),
        Ty::Borrowed(lt, mu, el) => Ty::Borrowed(copy_name_opt(lt), *mu, Box::new(copy_ty(el))),
        Ty::Pointer(mu, el) => Ty::Pointer(*mu, Box::new(copy_ty(el))),
        Ty::FnSig(params, ret) => Ty::FnSig(copy_tys(params), copy_ty_opt(ret)),
        Ty::DynBound(bounds) => Ty::DynBound(copy_bounds(bounds)),
        Ty::ImplBound(bounds) => Ty::ImplBound(copy_bounds(bounds)),
        Ty::Tuple(els) => Ty::Tuple(copy_tys(els)),
        Ty::Paren(el) => Ty::Paren(Box::new(copy_ty(el))),
        Ty::Infer => Ty::Infer,
        Ty::Never => Ty::Never,
        Ty::MacroTy(tokens) => Ty::MacroTy(copy_name(tokens)),
        Ty::Verbatim(tokens) => Ty::Verbatim(copy_name(tokens)),
    }
}

/// A deep copy of an optional type.
pub fn copy_ty_opt(a: &Option<Box<Ty>>) -> (r: Option<Box<Ty>>)
    ensures
        r == *a,
    decreases a,
{
    match a {
        Option::None => Option::None,
        Option::Some(t) => Option::Some(Box::new(copy_ty(t))),
    }
}

/// A deep copy of a type list.
pub fn copy_tys(a: &List<Ty>) -> (r: List<Ty>)
    ensures
        r == *a,
    decreases a,
{
    match a {
        List::Nil => List::Nil,
        List::Cons(t, rest) => List::Cons(Box::new(copy_ty(t)), Box::new(copy_tys(rest))),
    }
}

/// A deep copy of a type reference; what a successful match inserts.
pub fn copy_type_ref(a: &TypeRef) -> (r: TypeRef)
    ensures
        r == *a,
    decreases a,
{
    TypeRef { qself: copy_ty_opt(&a.qself), path: copy_path(&a.path) }
}

/// A deep copy of a path.
pub fn copy_path(a: &Path) -> (r: Path)
    ensures
        r == *a,
    decreases a,
{
    Path { segments: copy_segs(&a.segments) }
}

/// A deep copy of a segment list.
pub fn copy_segs(a: &List<PathSeg>) -> (r: List<PathSeg>)
    ensures
        r == *a,
    decreases a,
{
    match a {
        List::Nil => List::Nil,
        List::Cons(s, rest) => List::Cons(Box::new(copy_seg(s)), Box::new(copy_segs(rest))),
    }
}

/// A deep copy of a segment.
pub fn copy_seg(a: &PathSeg) -> (r: PathSeg)
    ensures
        r == *a,
    decreases a,
{
    PathSeg { name: copy_name(&a.name), args: copy_path_args(&a.args) }
}

/// A deep copy of an argument position.
pub fn copy_path_args(a: &PathArgs) -> (r: PathArgs)
    ensures
        r == *a,
    decreases a,
{
    match a {
        PathArgs::Plain => PathArgs::Plain,
        PathArgs::Angle(args) => PathArgs::Angle(copy_gen_args(args)),
        PathArgs::Paren(ins, out) => PathArgs::Paren(copy_tys(ins), copy_ty_opt(out)),
    }
}

/// A deep copy of an angle-bracketed argument list.
pub fn copy_gen_args(a: &List<GenArg>) -> (r: List<GenArg>)
    ensures
        r == *a,
    decreases a,
{
    match a {
        List::Nil => List::Nil,
        List::Cons(g, rest) => List::Cons(Box::new(copy_gen_arg(g)), Box::new(copy_gen_args(rest))),
    }
}

/// A deep copy of a generic argument.
pub fn copy_gen_arg(a: &GenArg) -> (r: GenArg)
    ensures
        r == *a,
    decreases a,
{
    match a {
        GenArg::TypeArg(t) => GenArg::TypeArg(copy_ty(t)),
        GenArg::ConstArg(tokens) => GenArg::ConstArg(copy_name(tokens)),
        GenArg::LifetimeArg(lt) => GenArg::LifetimeArg(copy_name(lt)),
        GenArg::BindingArg(name, t) => GenArg::BindingArg(copy_name(name), copy_ty(t)),
    }
}

/// A deep copy of a bound list.
pub fn copy_bounds(a: &List<Bound>) -> (r: List<Bound>)
    ensures
        r == *a,
    decreases a,
{
    match a {
        List::Nil => List::Nil,
        List::Cons(b, rest) => List::Cons(Box::new(copy_bound(b)), Box::new(copy_bounds(rest))),
    }
}

/// A deep copy of a bound.
pub fn copy_bound(a: &Bound) -> (r: Bound)
    ensures
        r == *a,
    decreases a,
{
    match a {
        Bound::Interface(p) => Bound::Interface(copy_path(p)),
        Bound::LifetimeBound(lt) => Bound::LifetimeBound(copy_name(lt)),
    }
}

// ------------------------------------------------------------------
// Table lookup
// ------------------------------------------------------------------

/// The table entry whose key equals `t`, if any: the executable form of
/// `lookup`.
pub fn lookup_subst<'a>(m: &'a List<SubstPair>, t: &TypeRef) -> (r: Option<&'a TypeRef>)
    ensures
        match r {
            Option::Some(v) => lookup(*m, *t) == Option::Some(*v),
            Option::None => lookup(*m, *t) is None,
        },
    decreases m,
{
    match m {
        List::Nil => Option::None,
        List::Cons(p, rest) => if eq_type_ref(&p.key, t) {
            Option::Some(&p.value)
        } else {
            lookup_subst(rest, t)
        },
    }
}

// ------------------------------------------------------------------
// The rewrite pass over the type grammar
// ------------------------------------------------------------------

/// Rewrites a type: the executable form of `rw_ty`. On an exact match the
/// node becomes a deep copy of the mapped value and is not descended into.
pub fn rewrite_ty(t: Ty, m: &List<SubstPair>) -> (r: Ty)
    ensures
        r == rw_ty(t, *m),
    decreases t,
{
    match t {
        Ty::Named(tr) => match lookup_subst(m, &tr) {
            Option::Some(v) => Ty::Named(copy_type_ref(v)),
            Option::None => Ty::Named(rewrite_type_ref(tr, m)),
        },
        Ty::Array(el, len) => Ty::Array(Box::new(rewrite_ty(*el, m)), len),
        Ty::Slice(el) => Ty::Slice(Box::new(rewrite_ty(*el, m))),
        Ty::Borrowed(lt, mu, el) => Ty::Borrowed(lt, mu, Box::new(rewrite_ty(*el, m))),
        Ty::Pointer(mu, el) => Ty::Pointer(mu, Box::new(rewrite_ty(*el, m))),
        Ty::FnSig(params, ret) => Ty::FnSig(rewrite_tys(params, m), rewrite_ty_opt(ret, m)),
        Ty::DynBound(bounds) => Ty::DynBound(rewrite_bounds(bounds, m)),
        Ty::ImplBound(bounds) => Ty::ImplBound(rewrite_bounds(bounds, m)),
        Ty::Tuple(els) => Ty::Tuple(rewrite_tys(els, m)),
        Ty::Paren(el) => Ty::Paren(Box::new(rewrite_ty(*el, m))),
        Ty::Infer => Ty::Infer,
        Ty::Never => Ty::Never,
        Ty::MacroTy(tokens) => Ty::MacroTy(tokens),
        Ty::Verbatim(tokens) => Ty::Verbatim(tokens),
    }
}

/// Rewrites an optional type.
pub fn rewrite_ty_opt(o: Option<Box<Ty>>, m: &List<SubstPair>) -> (r: Option<Box<Ty>>)
    ensures
        r == rw_ty_opt(o, *m),
    decreases o,
{
    match o {
        Option::Some(t) => Option::Some(Box::new(rewrite_ty(*t, m))),
        Option::None => Option::None,
    }
}

/// Rewrites a type list.
pub fn rewrite_tys(l: List<Ty>, m: &List<SubstPair>) -> (r: List<Ty>)
    ensures
        r == rw_tys(l, *m),
    decreases l,
{
    match l {
        List::Nil => List::Nil,
        List::Cons(t, rest) => List::Cons(
            Box::new(rewrite_ty(*t, m)),
            Box::new(rewrite_tys(*rest, m)),
        ),
    }
}

/// Rewrites the structure of a non-matching type reference.
pub fn rewrite_type_ref(tr: TypeRef, m: &List<SubstPair>) -> (r: TypeRef)
    ensures
        r == rw_type_ref(tr, *m),
    decreases tr,
{
    let TypeRef { qself, path } = tr;
    TypeRef { qself: rewrite_ty_opt(qself, m), path: rewrite_path(path, m) }
}

/// Rewrites a path.
pub fn rewrite_path(p: Path, m: &List<SubstPair>) -> (r: Path)
    ensures
        r == rw_path(p, *m),
    decreases p,
{
    let Path { segments } = p;
    Path { segments: rewrite_segs(segments, m) }
}

/// Rewrites a segment list.
pub fn rewrite_segs(l: List<PathSeg>, m: &List<SubstPair>) -> (r: List<PathSeg>)
    ensures
        r == rw_segs(l, *m),
    decreases l,
{
    match l {
        List::Nil => List::Nil,
        List::Cons(s, rest) => List::Cons(
            Box::new(rewrite_seg(*s, m)),
            Box::new(rewrite_segs(*rest, m)),
        ),
    }
}

/// Rewrites a segment.
pub fn rewrite_seg(s: PathSeg, m: &List<SubstPair>) -> (r: PathSeg)
    ensures
        r == rw_seg(s, *m),
    decreases s,
{
    let PathSeg { name, args } = s;
    PathSeg { name, args: rewrite_path_args(args, m) }
}

/// Rewrites an argument position.
pub fn rewrite_path_args(a: PathArgs, m: &List<SubstPair>) -> (r: PathArgs)
    ensures
        r == rw_path_args(a, *m),
    decreases a,
{
    match a {
        PathArgs::Plain => PathArgs::Plain,
        PathArgs::Angle(args) => PathArgs::Angle(rewrite_gen_args(args, m)),
        PathArgs::Paren(ins, out) => PathArgs::Paren(
            rewrite_tys(ins, m),
            rewrite_ty_opt(out, m),
        ),
    }
}

/// Rewrites an angle-bracketed argument list.
pub fn rewrite_gen_args(l: List<GenArg>, m: &List<SubstPair>) -> (r: List<GenArg>)
    ensures
        r == rw_gen_args(l, *m),
    decreases l,
{
    match l {
        List::Nil => List::Nil,
        List::Cons(a, rest) => List::Cons(
            Box::new(rewrite_gen_arg(*a, m)),
            Box::new(rewrite_gen_args(*rest, m)),
        ),
    }
}

/// Rewrites a generic argument.
pub fn rewrite_gen_arg(a: GenArg, m: &List<SubstPair>) -> (r: GenArg)
    ensures
        r == rw_gen_arg(a, *m),
    decreases a,
{
    match a {
        GenArg::TypeArg(t) => GenArg::TypeArg(rewrite_ty(t, m)),
        GenArg::ConstArg(tokens) => GenArg::ConstArg(tokens),
        GenArg::LifetimeArg(lt) => GenArg::LifetimeArg(lt),
        GenArg::BindingArg(name, t) => GenArg::BindingArg(name, rewrite_ty(t, m)),
    }
}

/// Rewrites a bound list.
pub fn rewrite_bounds(l: List<Bound>, m: &List<SubstPair>) -> (r: List<Bound>)
    ensures
        r == rw_bounds(l, *m),
    decreases l,
{
    match l {
        List::Nil => List::Nil,
        List::Cons(b, rest) => List::Cons(
            Box::new(rewrite_bound(*b, m)),
            Box::new(rewrite_bounds(*rest, m)),
        ),
    }
}

/// Rewrites a bound.
pub fn rewrite_bound(b: Bound, m: &List<SubstPair>) -> (r: Bound)
    ensures
        r == rw_bound(b, *m),
    decreases b,
{
    match b {
        Bound::Interface(p) => Bound::Interface(rewrite_path(p, m)),
        Bound::LifetimeBound(lt) => Bound::LifetimeBound(lt),
    }
}


// ------------------------------------------------------------------
// The rewrite pass over expressions
// ------------------------------------------------------------------

/// Rewrites an expression.
pub fn rewrite_expr(e: Expr, m: &List<SubstPair>) -> (r: Expr)
    ensures
        r == rw_expr(e, *m),
    decreases e,
{
    match e {
        Expr::Lit(tokens) => Expr::Lit(tokens),
        Expr::PathExpr(q, p) => Expr::PathExpr(rewrite_ty_opt(q, m), rewrite_path(p, m)),
        Expr::Unary(op, a) => Expr::Unary(op, Box::new(rewrite_expr(*a, m))),
        Expr::Binary(op, a, b) => Expr::Binary(
            op,
            Box::new(rewrite_expr(*a, m)),
            Box::new(rewrite_expr(*b, m)),
        ),
        Expr::Borrow(mu, a) => Expr::Borrow(mu, Box::new(rewrite_expr(*a, m))),
        Expr::Deref(a) => Expr::Deref(Box::new(rewrite_expr(*a, m))),
        Expr::Cast(a, t) => Expr::Cast(
            Box::new(rewrite_expr(*a, m)),
            Box::new(rewrite_ty(*t, m)),
        ),
        Expr::Call(f, args) => Expr::Call(Box::new(rewrite_expr(*f, m)), rewrite_exprs(args, m)),
        Expr::MethodCall(recv, name, targs, args) => Expr::MethodCall(
            Box::new(rewrite_expr(*recv, m)),
            name,
            match targs {
                Option::Some(l) => Option::Some(rewrite_gen_args(l, m)),
                Option::None => Option::None,
            },
            rewrite_exprs(args, m),
        ),
        Expr::Index(a, i) => Expr::Index(
            Box::new(rewrite_expr(*a, m)),
            Box::new(rewrite_expr(*i, m)),
        ),
        Expr::Range(lo, hi) => Expr::Range(rewrite_expr_opt(lo, m), rewrite_expr_opt(hi, m)),
        Expr::StructLit(q, p, fields, rest) => Expr::StructLit(
            rewrite_ty_opt(q, m),
            rewrite_path(p, m),
            rewrite_field_vals(fields, m),
            rewrite_expr_opt(rest, m),
        ),
        Expr::Closure(params, ret, body) => Expr::Closure(
            rewrite_pats(params, m),
            rewrite_ty_opt(ret, m),
            Box::new(rewrite_expr(*body, m)),
        ),
        Expr::IfExpr(c, t, e2) => Expr::IfExpr(
            Box::new(rewrite_expr(*c, m)),
            rewrite_block(t, m),
            rewrite_expr_opt(e2, m),
        ),
        Expr::MatchExpr(s, arms) => Expr::MatchExpr(
            Box::new(rewrite_expr(*s, m)),
            rewrite_arms(arms, m),
        ),
        Expr::LoopExpr(b) => Expr::LoopExpr(rewrite_block(b, m)),
        Expr::WhileExpr(c, b) => Expr::WhileExpr(
            Box::new(rewrite_expr(*c, m)),
            rewrite_block(b, m),
        ),
        Expr::ForExpr(pat, it, b) => Expr::ForExpr(
            Box::new(rewrite_pat(*pat, m)),
            Box::new(rewrite_expr(*it, m)),
            rewrite_block(b, m),
        ),
        Expr::BlockExpr(b) => Expr::BlockExpr(rewrite_block(b, m)),
        Expr::UncheckedBlock(b) => Expr::UncheckedBlock(rewrite_block(b, m)),
        Expr::AsyncBlock(b) => Expr::AsyncBlock(rewrite_block(b, m)),
        Expr::ConstBlock(b) => Expr::ConstBlock(rewrite_block(b, m)),
        Expr::Ret(a) => Expr::Ret(rewrite_expr_opt(a, m)),
        Expr::BreakExpr(a) => Expr::BreakExpr(rewrite_expr_opt(a, m)),
        Expr::YieldExpr(a) => Expr::YieldExpr(rewrite_expr_opt(a, m)),
        Expr::ContinueExpr => Expr::ContinueExpr,
        Expr::MacroExpr(tokens) => Expr::MacroExpr(tokens),
    }
}

/// Rewrites an optional expression.
pub fn rewrite_expr_opt(o: Option<Box<Expr>>, m: &List<SubstPair>) -> (r: Option<Box<Expr>>)
    ensures
        r == rw_expr_opt(o, *m),
    decreases o,
{
    match o {
        Option::Some(e) => Option::Some(Box::new(rewrite_expr(*e, m))),
        Option::None => Option::None,
    }
}

/// Rewrites an expression list.
pub fn rewrite_exprs(l: List<Expr>, m: &List<SubstPair>) -> (r: List<Expr>)
    ensures
        r == rw_exprs(l, *m),
    decreases l,
{
    match l {
        List::Nil => List::Nil,
        List::Cons(e, rest) => List::Cons(
            Box::new(rewrite_expr(*e, m)),
            Box::new(rewrite_exprs(*rest, m)),
        ),
    }
}

/// Rewrites struct-literal field values.
pub fn rewrite_field_vals(l: List<FieldVal>, m: &List<SubstPair>) -> (r: List<FieldVal>)
    ensures
        r == rw_field_vals(l, *m),
    decreases l,
{
    match l {
        List::Nil => List::Nil,
        List::Cons(f, rest) => {
            let FieldVal { name, value } = *f;
            List::Cons(
                Box::new(FieldVal { name, value: rewrite_expr(value, m) }),
                Box::new(rewrite_field_vals(*rest, m)),
            )
        },
    }
}

/// Rewrites match arms.
pub fn rewrite_arms(l: List<Arm>, m: &List<SubstPair>) -> (r: List<Arm>)
    ensures
        r == rw_arms(l, *m),
    decreases l,
{
    match l {
        List::Nil => List::Nil,
        List::Cons(a, rest) => {
            let Arm { pat, guard, body } = *a;
            List::Cons(
                Box::new(
                    Arm {
                        pat: rewrite_pat(pat, m),
                        guard: rewrite_expr_opt(guard, m),
                        body: rewrite_expr(body, m),
                    },
                ),
                Box::new(rewrite_arms(*rest, m)),
            )
        },
    }
}

/// Rewrites a block.
pub fn rewrite_block(b: Block, m: &List<SubstPair>) -> (r: Block)
    ensures
        r == rw_block(b, *m),
    decreases b,
{
    let Block { stmts } = b;
    Block { stmts: rewrite_stmts(stmts, m) }
}

/// Rewrites a statement list.
pub fn rewrite_stmts(l: List<Stmt>, m: &List<SubstPair>) -> (r: List<Stmt>)
    ensures
        r == rw_stmts(l, *m),
    decreases l,
{
    match l {
        List::Nil => List::Nil,
        List::Cons(s, rest) => List::Cons(
            Box::new(rewrite_stmt(*s, m)),
            Box::new(rewrite_stmts(*rest, m)),
        ),
    }
}

/// Rewrites a statement.
pub fn rewrite_stmt(s: Stmt, m: &List<SubstPair>) -> (r: Stmt)
    ensures
        r == rw_stmt(s, *m),
    decreases s,
{
    match s {
        Stmt::LetStmt(pat, ty, init) => Stmt::LetStmt(
            Box::new(rewrite_pat(*pat, m)),
            rewrite_ty_opt(ty, m),
            rewrite_expr_opt(init, m),
        ),
        Stmt::ExprStmt(e) => Stmt::ExprStmt(Box::new(rewrite_expr(*e, m))),
        Stmt::ItemStmt(it) => Stmt::ItemStmt(Box::new(rewrite_item(*it, m))),
        Stmt::MacroStmt(tokens) => Stmt::MacroStmt(tokens),
    }
}

// ------------------------------------------------------------------
// The rewrite pass over patterns
// ------------------------------------------------------------------

/// Rewrites a pattern.
pub fn rewrite_pat(p: Pat, m: &List<SubstPair>) -> (r: Pat)
    ensures
        r == rw_pat(p, *m),
    decreases p,
{
    match p {
        Pat::Wild => Pat::Wild,
        Pat::LitPat(tokens) => Pat::LitPat(tokens),
        Pat::RangePat(tokens) => Pat::RangePat(tokens),
        Pat::RestPat => Pat::RestPat,
        Pat::PathPat(q, path) => Pat::PathPat(rewrite_ty_opt(q, m), rewrite_path(path, m)),
        Pat::StructPat(q, path, fields) => Pat::StructPat(
            rewrite_ty_opt(q, m),
            rewrite_path(path, m),
            rewrite_field_pats(fields, m),
        ),
        Pat::TupleStructPat(q, path, els) => Pat::TupleStructPat(
            rewrite_ty_opt(q, m),
            rewrite_path(path, m),
            rewrite_pats(els, m),
        ),
        Pat::TuplePat(els) => Pat::TuplePat(rewrite_pats(els, m)),
        Pat::SlicePat(els) => Pat::SlicePat(rewrite_pats(els, m)),
        Pat::OrPat(els) => Pat::OrPat(rewrite_pats(els, m)),
        Pat::ParenPat(inner) => Pat::ParenPat(Box::new(rewrite_pat(*inner, m))),
        Pat::BorrowPat(mu, inner) => Pat::BorrowPat(mu, Box::new(rewrite_pat(*inner, m))),
        Pat::TypedPat(inner, ty) => Pat::TypedPat(
            Box::new(rewrite_pat(*inner, m)),
            Box::new(rewrite_ty(*ty, m)),
        ),
        Pat::MacroPat(tokens) => Pat::MacroPat(tokens),
    }
}

/// Rewrites a pattern list.
pub fn rewrite_pats(l: List<Pat>, m: &List<SubstPair>) -> (r: List<Pat>)
    ensures
        r == rw_pats(l, *m),
    decreases l,
{
    match l {
        List::Nil => List::Nil,
        List::Cons(p, rest) => List::Cons(
            Box::new(rewrite_pat(*p, m)),
            Box::new(rewrite_pats(*rest, m)),
        ),
    }
}

/// Rewrites struct-pattern fields.
pub fn rewrite_field_pats(l: List<FieldPat>, m: &List<SubstPair>) -> (r: List<FieldPat>)
    ensures
        r == rw_field_pats(l, *m),
    decreases l,
{
    match l {
        List::Nil => List::Nil,
        List::Cons(f, rest) => {
            let FieldPat { name, pat } = *f;
            List::Cons(
                Box::new(FieldPat { name, pat: rewrite_pat(pat, m) }),
                Box::new(rewrite_field_pats(*rest, m)),
            )
        },
    }
}

// ------------------------------------------------------------------
// The rewrite pass over declarations
// ------------------------------------------------------------------

/// Rewrites a declaration.
pub fn rewrite_item(it: Item, m: &List<SubstPair>) -> (r: Item)
    ensures
        r == rw_item(it, *m),
    decreases it,
{
    match it {
        Item::FnItem(f) => Item::FnItem(rewrite_fn_decl(f, m)),
        Item::StructItem(name, g, fields) => Item::StructItem(
            name,
            rewrite_generics(g, m),
            rewrite_fields(fields, m),
        ),
        Item::UnionItem(name, g, fields) => Item::UnionItem(
            name,
            rewrite_generics(g, m),
            rewrite_field_defs(fields, m),
        ),
        Item::EnumItem(name, g, variants) => Item::EnumItem(
            name,
            rewrite_generics(g, m),
            rewrite_variants(variants, m),
        ),
        Item::InterfaceItem(name, g, supers, items) => Item::InterfaceItem(
            name,
            rewrite_generics(g, m),
            rewrite_bounds(supers, m),
            rewrite_items(items, m),
        ),
        Item::InterfaceAliasItem(name, g, bounds) => Item::InterfaceAliasItem(
            name,
            rewrite_generics(g, m),
            rewrite_bounds(bounds, m),
        ),
        Item::TypeAliasItem(name, g, bounds, ty) => Item::TypeAliasItem(
            name,
            rewrite_generics(g, m),
            rewrite_bounds(bounds, m),
            rewrite_ty_opt(ty, m),
        ),
        Item::ConstItem(name, ty, init) => Item::ConstItem(
            name,
            Box::new(rewrite_ty(*ty, m)),
            rewrite_expr_opt(init, m),
        ),
        Item::StaticItem(name, ty, init) => Item::StaticItem(
            name,
            Box::new(rewrite_ty(*ty, m)),
            rewrite_expr_opt(init, m),
        ),
        Item::ImplItem(g, iface, self_ty, items) => Item::ImplItem(
            rewrite_generics(g, m),
            match iface {
                Option::Some(p) => Option::Some(rewrite_path(p, m)),
                Option::None => Option::None,
            },
            Box::new(rewrite_ty(*self_ty, m)),
            rewrite_items(items, m),
        ),
        Item::ModuleItem(name, items) => Item::ModuleItem(
            name,
            match items {
                Option::Some(l) => Option::Some(rewrite_items(l, m)),
                Option::None => Option::None,
            },
        ),
        Item::UseItem(tokens) => Item::UseItem(tokens),
        Item::ForeignItem(tokens) => Item::ForeignItem(tokens),
        Item::MacroItem(tokens) => Item::MacroItem(tokens),
    }
}

/// Rewrites a declaration list.
pub fn rewrite_items(l: List<Item>, m: &List<SubstPair>) -> (r: List<Item>)
    ensures
        r == rw_items(l, *m),
    decreases l,
{
    match l {
        List::Nil => List::Nil,
        List::Cons(it, rest) => List::Cons(
            Box::new(rewrite_item(*it, m)),
            Box::new(rewrite_items(*rest, m)),
        ),
    }
}

/// Rewrites a function-like declaration.
pub fn rewrite_fn_decl(f: FnDecl, m: &List<SubstPair>) -> (r: FnDecl)
    ensures
        r == rw_fn_decl(f, *m),
    decreases f,
{
    let FnDecl { name, generics, params, ret, body } = f;
    FnDecl {
        name,
        generics: rewrite_generics(generics, m),
        params: rewrite_params(params, m),
        ret: rewrite_ty_opt(ret, m),
        body: match body {
            Option::Some(b) => Option::Some(rewrite_block(b, m)),
            Option::None => Option::None,
        },
    }
}

/// Rewrites a parameter list.
pub fn rewrite_params(l: List<Param>, m: &List<SubstPair>) -> (r: List<Param>)
    ensures
        r == rw_params(l, *m),
    decreases l,
{
    match l {
        List::Nil => List::Nil,
        List::Cons(p, rest) => List::Cons(
            Box::new(rewrite_param(*p, m)),
            Box::new(rewrite_params(*rest, m)),
        ),
    }
}

/// Rewrites one parameter.
pub fn rewrite_param(p: Param, m: &List<SubstPair>) -> (r: Param)
    ensures
        r == rw_param(p, *m),
    decreases p,
{
    match p {
        Param::Receiver(ty) => Param::Receiver(rewrite_ty_opt(ty, m)),
        Param::TypedParam(pat, ty) => Param::TypedParam(rewrite_pat(pat, m), rewrite_ty(ty, m)),
    }
}

/// Rewrites a field list.
pub fn rewrite_fields(f: Fields, m: &List<SubstPair>) -> (r: Fields)
    ensures
        r == rw_fields(f, *m),
    decreases f,
{
    match f {
        Fields::NamedFields(l) => Fields::NamedFields(rewrite_field_defs(l, m)),
        Fields::UnnamedFields(l) => Fields::UnnamedFields(rewrite_tys(l, m)),
        Fields::UnitFields => Fields::UnitFields,
    }
}

/// Rewrites named field definitions.
pub fn rewrite_field_defs(l: List<FieldDef>, m: &List<SubstPair>) -> (r: List<FieldDef>)
    ensures
        r == rw_field_defs(l, *m),
    decreases l,
{
    match l {
        List::Nil => List::Nil,
        List::Cons(f, rest) => {
            let FieldDef { name, ty } = *f;
            List::Cons(
                Box::new(FieldDef { name, ty: rewrite_ty(ty, m) }),
                Box::new(rewrite_field_defs(*rest, m)),
            )
        },
    }
}

/// Rewrites enum variants.
pub fn rewrite_variants(l: List<Variant>, m: &List<SubstPair>) -> (r: List<Variant>)
    ensures
        r == rw_variants(l, *m),
    decreases l,
{
    match l {
        List::Nil => List::Nil,
        List::Cons(v, rest) => {
            let Variant { name, fields, discr } = *v;
            List::Cons(
                Box::new(
                    Variant {
                        name,
                        fields: rewrite_fields(fields, m),
                        discr: rewrite_expr_opt(discr, m),
                    },
                ),
                Box::new(rewrite_variants(*rest, m)),
            )
        },
    }
}

// ------------------------------------------------------------------
// The rewrite pass over generics
// ------------------------------------------------------------------

/// Rewrites a declaration's generics.
pub fn rewrite_generics(g: Generics, m: &List<SubstPair>) -> (r: Generics)
    ensures
        r == rw_generics(g, *m),
    decreases g,
{
    let Generics { params, where_preds } = g;
    Generics {
        params: rewrite_generic_params(params, m),
        where_preds: rewrite_where_preds(where_preds, m),
    }
}

/// Rewrites a generic-parameter list.
pub fn rewrite_generic_params(l: List<GenericParam>, m: &List<SubstPair>) -> (r: List<GenericParam>)
    ensures
        r == rw_generic_params(l, *m),
    decreases l,
{
    match l {
        List::Nil => List::Nil,
        List::Cons(p, rest) => List::Cons(
            Box::new(rewrite_generic_param(*p, m)),
            Box::new(rewrite_generic_params(*rest, m)),
        ),
    }
}

/// Rewrites one generic parameter.
pub fn rewrite_generic_param(p: GenericParam, m: &List<SubstPair>) -> (r: GenericParam)
    ensures
        r == rw_generic_param(p, *m),
    decreases p,
{
    match p {
        GenericParam::TypeParam(name, bounds) => GenericParam::TypeParam(
            name,
            rewrite_bounds(bounds, m),
        ),
        GenericParam::ConstParam(name, ty, dflt) => GenericParam::ConstParam(
            name,
            rewrite_ty(ty, m),
            rewrite_expr_opt(dflt, m),
        ),
        GenericParam::LifetimeParam(lt) => GenericParam::LifetimeParam(lt),
    }
}

/// Rewrites a where-predicate list.
pub fn rewrite_where_preds(l: List<WherePred>, m: &List<SubstPair>) -> (r: List<WherePred>)
    ensures
        r == rw_where_preds(l, *m),
    decreases l,
{
    match l {
        List::Nil => List::Nil,
        List::Cons(p, rest) => List::Cons(
            Box::new(rewrite_where_pred(*p, m)),
            Box::new(rewrite_where_preds(*rest, m)),
        ),
    }
}

/// Rewrites one where-predicate.
pub fn rewrite_where_pred(p: WherePred, m: &List<SubstPair>) -> (r: WherePred)
    ensures
        r == rw_where_pred(p, *m),
    decreases p,
{
    match p {
        WherePred::TypePred(ty, bounds) => WherePred::TypePred(
            rewrite_ty(ty, m),
            rewrite_bounds(bounds, m),
        ),
        WherePred::LifetimePred(lt) => WherePred::LifetimePred(lt),
    }
}

/// Rewrites a whole compilation unit.
pub fn rewrite_unit(u: SourceUnit, m: &List<SubstPair>) -> (r: SourceUnit)
    ensures
        r == rw_unit(u, *m),
    decreases u,
{
    let SourceUnit { items } = u;
    SourceUnit { items: rewrite_items(items, m) }
}

} // verus!
