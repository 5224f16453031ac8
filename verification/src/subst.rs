//! The substitution table and the specification of one rewrite pass.
//!
//! `rw_ty` and its companions define, node kind by node kind, what one
//! depth-first pass over a tree produces. Replacement happens at named
//! type references only: a reference structurally equal to a table key
//! becomes the mapped value and is not descended into; every other node
//! keeps its form and has its children rewritten in source order; opaque
//! token runs pass through unchanged. The executable engine is proved
//! equal to these functions, and the laws are proved about them.

use vstd::prelude::*;

use crate::ast::Arm;
use crate::ast::Block;
use crate::ast::Bound;
use crate::ast::Expr;
use crate::ast::FieldDef;
use crate::ast::FieldPat;
use crate::ast::FieldVal;
use crate::ast::Fields;
use crate::ast::FnDecl;
use crate::ast::GenArg;
use crate::ast::GenericParam;
use crate::ast::Generics;
use crate::ast::Item;
use crate::ast::List;
use crate::ast::Param;
use crate::ast::Pat;
use crate::ast::Path;
use crate::ast::PathArgs;
use crate::ast::PathSeg;
use crate::ast::SourceUnit;
use crate::ast::Stmt;
use crate::ast::Ty;
use crate::ast::TypeRef;
use crate::ast::Variant;
use crate::ast::WherePred;

verus! {

/// One entry of the substitution table: a fully concrete key and the
/// reference that replaces it.
#[derive(Debug, PartialEq)]
pub struct SubstPair {
    pub key: TypeRef,
    pub value: TypeRef,
}

/// The value the table maps `t` to: that of the first entry whose key is
/// structurally equal to `t`, if any.
pub open spec fn lookup(m: List<SubstPair>, t: TypeRef) -> Option<TypeRef>
    decreases m,
{
    match m {
        List::Nil => Option::None,
        List::Cons(p, rest) => if p.key == t {
            Option::Some(p.value)
        } else {
            lookup(*rest, t)
        },
    }
}

/// Whether some table key is structurally equal to `t`.
pub open spec fn has_match(m: List<SubstPair>, t: TypeRef) -> bool {
    lookup(m, t) is Some
}

// ------------------------------------------------------------------
// Types
// ------------------------------------------------------------------

/// One pass over a type. At a named reference the table decides: on a
/// match the whole node becomes the mapped value, with no descent into
/// it; otherwise the reference's own structure is descended into.
pub open spec fn rw_ty(t: Ty, m: List<SubstPair>) -> Ty
    decreases t,
{
    match t {
        Ty::Named(tr) => match lookup(m, tr) {
            Option::Some(v) => Ty::Named(v),
            Option::None => Ty::Named(rw_type_ref(tr, m)),
        },
        Ty::Array(el, len) => Ty::Array(Box::new(rw_ty(*el, m)), len),
        Ty::Slice(el) => Ty::Slice(Box::new(rw_ty(*el, m))),
        Ty::Borrowed(lt, mu, el) => Ty::Borrowed(lt, mu, Box::new(rw_ty(*el, m))),
        Ty::Pointer(mu, el) => Ty::Pointer(mu, Box::new(rw_ty(*el, m))),
        Ty::FnSig(params, ret) => Ty::FnSig(rw_tys(params, m), rw_ty_opt(ret, m)),
        Ty::DynBound(bounds) => Ty::DynBound(rw_bounds(bounds, m)),
        Ty::ImplBound(bounds) => Ty::ImplBound(rw_bounds(bounds, m)),
        Ty::Tuple(els) => Ty::Tuple(rw_tys(els, m)),
        Ty::Paren(el) => Ty::Paren(Box::new(rw_ty(*el, m))),
        Ty::Infer => Ty::Infer,
        Ty::Never => Ty::Never,
        Ty::MacroTy(tokens) => Ty::MacroTy(tokens),
        Ty::Verbatim(tokens) => Ty::Verbatim(tokens),
    }
}

/// One pass over an optional boxed type.
pub open spec fn rw_ty_opt(o: Option<Box<Ty>>, m: List<SubstPair>) -> Option<Box<Ty>>
    decreases o,
{
    match o {
        Option::Some(t) => Option::Some(Box::new(rw_ty(*t, m))),
        Option::None => Option::None,
    }
}

/// One pass over a type list.
pub open spec fn rw_tys(l: List<Ty>, m: List<SubstPair>) -> List<Ty>
    decreases l,
{
    match l {
        List::Nil => List::Nil,
        List::Cons(t, rest) => List::Cons(
            Box::new(rw_ty(*t, m)),
            Box::new(rw_tys(*rest, m)),
        ),
    }
}

/// One pass over the structure of a non-matching type reference: its
/// qualifying self type and its path.
pub open spec fn rw_type_ref(tr: TypeRef, m: List<SubstPair>) -> TypeRef
    decreases tr,
{
    TypeRef { qself: rw_ty_opt(tr.qself, m), path: rw_path(tr.path, m) }
}

/// One pass over a path: every segment.
pub open spec fn rw_path(p: Path, m: List<SubstPair>) -> Path
    decreases p,
{
    Path { segments: rw_segs(p.segments, m) }
}

/// One pass over a segment list.
pub open spec fn rw_segs(l: List<PathSeg>, m: List<SubstPair>) -> List<PathSeg>
    decreases l,
{
    match l {
        List::Nil => List::Nil,
        List::Cons(s, rest) => List::Cons(
            Box::new(rw_seg(*s, m)),
            Box::new(rw_segs(*rest, m)),
        ),
    }
}

/// One pass over a segment: the name stays, the arguments are descended into.
pub open spec fn rw_seg(s: PathSeg, m: List<SubstPair>) -> PathSeg
    decreases s,
{
    PathSeg { name: s.name, args: rw_path_args(s.args, m) }
}

/// One pass over a segment's generic arguments.
pub open spec fn rw_path_args(a: PathArgs, m: List<SubstPair>) -> PathArgs
    decreases a,
{
    match a {
        PathArgs::Plain => PathArgs::Plain,
        PathArgs::Angle(args) => PathArgs::Angle(rw_gen_args(args, m)),
        PathArgs::Paren(ins, out) => PathArgs::Paren(rw_tys(ins, m), rw_ty_opt(out, m)),
    }
}

/// One pass over an angle-bracketed argument list.
pub open spec fn rw_gen_args(l: List<GenArg>, m: List<SubstPair>) -> List<GenArg>
    decreases l,
{
    match l {
        List::Nil => List::Nil,
        List::Cons(a, rest) => List::Cons(
            Box::new(rw_gen_arg(*a, m)),
            Box::new(rw_gen_args(*rest, m)),
        ),
    }
}

/// One pass over one generic argument. Type content is descended into;
/// constant and lifetime arguments are opaque leaves.
pub open spec fn rw_gen_arg(a: GenArg, m: List<SubstPair>) -> GenArg
    decreases a,
{
    match a {
        GenArg::TypeArg(t) => GenArg::TypeArg(rw_ty(t, m)),
        GenArg::ConstArg(tokens) => GenArg::ConstArg(tokens),
        GenArg::LifetimeArg(lt) => GenArg::LifetimeArg(lt),
        GenArg::BindingArg(name, t) => GenArg::BindingArg(name, rw_ty(t, m)),
    }
}

/// One pass over a bound list.
pub open spec fn rw_bounds(l: List<Bound>, m: List<SubstPair>) -> List<Bound>
    decreases l,
{
    match l {
        List::Nil => List::Nil,
        List::Cons(b, rest) => List::Cons(
            Box::new(rw_bound(*b, m)),
            Box::new(rw_bounds(*rest, m)),
        ),
    }
}

/// One pass over one bound: an interface bound's path is descended into,
/// a lifetime bound is a leaf.
pub open spec fn rw_bound(b: Bound, m: List<SubstPair>) -> Bound
    decreases b,
{
    match b {
        Bound::Interface(p) => Bound::Interface(rw_path(p, m)),
        Bound::LifetimeBound(lt) => Bound::LifetimeBound(lt),
    }
}

// ------------------------------------------------------------------
// Expressions
// ------------------------------------------------------------------

/// One pass over an expression: every child that can hold a type
/// reference, a sub-expression or a sub-pattern is descended into, in
/// source order; literal and control-only leaves and macro bodies stay.
pub open spec fn rw_expr(e: Expr, m: List<SubstPair>) -> Expr
    decreases e,
{
    match e {
        Expr::Lit(tokens) => Expr::Lit(tokens),
        Expr::PathExpr(q, p) => Expr::PathExpr(rw_ty_opt(q, m), rw_path(p, m)),
        Expr::Unary(op, a) => Expr::Unary(op, Box::new(rw_expr(*a, m))),
        Expr::Binary(op, a, b) => Expr::Binary(
            op,
            Box::new(rw_expr(*a, m)),
            Box::new(rw_expr(*b, m)),
        ),
        Expr::Borrow(mu, a) => Expr::Borrow(mu, Box::new(rw_expr(*a, m))),
        Expr::Deref(a) => Expr::Deref(Box::new(rw_expr(*a, m))),
        Expr::Cast(a, t) => Expr::Cast(Box::new(rw_expr(*a, m)), Box::new(rw_ty(*t, m))),
        Expr::Call(f, args) => Expr::Call(Box::new(rw_expr(*f, m)), rw_exprs(args, m)),
        Expr::MethodCall(recv, name, targs, args) => Expr::MethodCall(
            Box::new(rw_expr(*recv, m)),
            name,
            match targs {
                Option::Some(l) => Option::Some(rw_gen_args(l, m)),
                Option::None => Option::None,
            },
            rw_exprs(args, m),
        ),
        Expr::Index(a, i) => Expr::Index(Box::new(rw_expr(*a, m)), Box::new(rw_expr(*i, m))),
        Expr::Range(lo, hi) => Expr::Range(rw_expr_opt(lo, m), rw_expr_opt(hi, m)),
        Expr::StructLit(q, p, fields, rest) => Expr::StructLit(
            rw_ty_opt(q, m),
            rw_path(p, m),
            rw_field_vals(fields, m),
            rw_expr_opt(rest, m),
        ),
        Expr::Closure(params, ret, body) => Expr::Closure(
            rw_pats(params, m),
            rw_ty_opt(ret, m),
            Box::new(rw_expr(*body, m)),
        ),
        Expr::IfExpr(c, t, e2) => Expr::IfExpr(
            Box::new(rw_expr(*c, m)),
            rw_block(t, m),
            rw_expr_opt(e2, m),
        ),
        Expr::MatchExpr(s, arms) => Expr::MatchExpr(Box::new(rw_expr(*s, m)), rw_arms(arms, m)),
        Expr::LoopExpr(b) => Expr::LoopExpr(rw_block(b, m)),
        Expr::WhileExpr(c, b) => Expr::WhileExpr(Box::new(rw_expr(*c, m)), rw_block(b, m)),
        Expr::ForExpr(pat, it, b) => Expr::ForExpr(
            Box::new(rw_pat(*pat, m)),
            Box::new(rw_expr(*it, m)),
            rw_block(b, m),
        ),
        Expr::BlockExpr(b) => Expr::BlockExpr(rw_block(b, m)),
        Expr::UncheckedBlock(b) => Expr::UncheckedBlock(rw_block(b, m)),
        Expr::AsyncBlock(b) => Expr::AsyncBlock(rw_block(b, m)),
        Expr::ConstBlock(b) => Expr::ConstBlock(rw_block(b, m)),
        Expr::Ret(a) => Expr::Ret(rw_expr_opt(a, m)),
        Expr::BreakExpr(a) => Expr::BreakExpr(rw_expr_opt(a, m)),
        Expr::YieldExpr(a) => Expr::YieldExpr(rw_expr_opt(a, m)),
        Expr::ContinueExpr => Expr::ContinueExpr,
        Expr::MacroExpr(tokens) => Expr::MacroExpr(tokens),
    }
}

/// One pass over an optional boxed expression.
pub open spec fn rw_expr_opt(o: Option<Box<Expr>>, m: List<SubstPair>) -> Option<Box<Expr>>
    decreases o,
{
    match o {
        Option::Some(e) => Option::Some(Box::new(rw_expr(*e, m))),
        Option::None => Option::None,
    }
}

/// One pass over an expression list.
pub open spec fn rw_exprs(l: List<Expr>, m: List<SubstPair>) -> List<Expr>
    decreases l,
{
    match l {
        List::Nil => List::Nil,
        List::Cons(e, rest) => List::Cons(
            Box::new(rw_expr(*e, m)),
            Box::new(rw_exprs(*rest, m)),
        ),
    }
}

/// One pass over struct-literal field values.
pub open spec fn rw_field_vals(l: List<FieldVal>, m: List<SubstPair>) -> List<FieldVal>
    decreases l,
{
    match l {
        List::Nil => List::Nil,
        List::Cons(f, rest) => List::Cons(
            Box::new(FieldVal { name: f.name, value: rw_expr(f.value, m) }),
            Box::new(rw_field_vals(*rest, m)),
        ),
    }
}

/// One pass over match arms: pattern, guard and body of each.
pub open spec fn rw_arms(l: List<Arm>, m: List<SubstPair>) -> List<Arm>
    decreases l,
{
    match l {
        List::Nil => List::Nil,
        List::Cons(a, rest) => List::Cons(
            Box::new(
                Arm {
                    pat: rw_pat(a.pat, m),
                    guard: rw_expr_opt(a.guard, m),
                    body: rw_expr(a.body, m),
                },
            ),
            Box::new(rw_arms(*rest, m)),
        ),
    }
}

/// One pass over a block: every statement.
pub open spec fn rw_block(b: Block, m: List<SubstPair>) -> Block
    decreases b,
{
    Block { stmts: rw_stmts(b.stmts, m) }
}

/// One pass over a statement list.
pub open spec fn rw_stmts(l: List<Stmt>, m: List<SubstPair>) -> List<Stmt>
    decreases l,
{
    match l {
        List::Nil => List::Nil,
        List::Cons(s, rest) => List::Cons(
            Box::new(rw_stmt(*s, m)),
            Box::new(rw_stmts(*rest, m)),
        ),
    }
}

/// One pass over a statement.
pub open spec fn rw_stmt(s: Stmt, m: List<SubstPair>) -> Stmt
    decreases s,
{
    match s {
        Stmt::LetStmt(pat, ty, init) => Stmt::LetStmt(
            Box::new(rw_pat(*pat, m)),
            rw_ty_opt(ty, m),
            rw_expr_opt(init, m),
        ),
        Stmt::ExprStmt(e) => Stmt::ExprStmt(Box::new(rw_expr(*e, m))),
        Stmt::ItemStmt(it) => Stmt::ItemStmt(Box::new(rw_item(*it, m))),
        Stmt::MacroStmt(tokens) => Stmt::MacroStmt(tokens),
    }
}

// ------------------------------------------------------------------
// Patterns
// ------------------------------------------------------------------

/// One pass over a pattern: paths, qualifying self types, annotated types
/// and sub-patterns are descended into; literal, range, rest and wildcard
/// patterns and macro bodies are leaves.
pub open spec fn rw_pat(p: Pat, m: List<SubstPair>) -> Pat
    decreases p,
{
    match p {
        Pat::Wild => Pat::Wild,
        Pat::LitPat(tokens) => Pat::LitPat(tokens),
        Pat::RangePat(tokens) => Pat::RangePat(tokens),
        Pat::RestPat => Pat::RestPat,
        Pat::PathPat(q, path) => Pat::PathPat(rw_ty_opt(q, m), rw_path(path, m)),
        Pat::StructPat(q, path, fields) => Pat::StructPat(
            rw_ty_opt(q, m),
            rw_path(path, m),
            rw_field_pats(fields, m),
        ),
        Pat::TupleStructPat(q, path, els) => Pat::TupleStructPat(
            rw_ty_opt(q, m),
            rw_path(path, m),
            rw_pats(els, m),
        ),
        Pat::TuplePat(els) => Pat::TuplePat(rw_pats(els, m)),
        Pat::SlicePat(els) => Pat::SlicePat(rw_pats(els, m)),
        Pat::OrPat(els) => Pat::OrPat(rw_pats(els, m)),
        Pat::ParenPat(inner) => Pat::ParenPat(Box::new(rw_pat(*inner, m))),
        Pat::BorrowPat(mu, inner) => Pat::BorrowPat(mu, Box::new(rw_pat(*inner, m))),
        Pat::TypedPat(inner, ty) => Pat::TypedPat(
            Box::new(rw_pat(*inner, m)),
            Box::new(rw_ty(*ty, m)),
        ),
        Pat::MacroPat(tokens) => Pat::MacroPat(tokens),
    }
}

/// One pass over a pattern list.
pub open spec fn rw_pats(l: List<Pat>, m: List<SubstPair>) -> List<Pat>
    decreases l,
{
    match l {
        List::Nil => List::Nil,
        List::Cons(p, rest) => List::Cons(
            Box::new(rw_pat(*p, m)),
            Box::new(rw_pats(*rest, m)),
        ),
    }
}

/// One pass over struct-pattern fields.
pub open spec fn rw_field_pats(l: List<FieldPat>, m: List<SubstPair>) -> List<FieldPat>
    decreases l,
{
    match l {
        List::Nil => List::Nil,
        List::Cons(f, rest) => List::Cons(
            Box::new(FieldPat { name: f.name, pat: rw_pat(f.pat, m) }),
            Box::new(rw_field_pats(*rest, m)),
        ),
    }
}

// ------------------------------------------------------------------
// Declarations
// ------------------------------------------------------------------

/// One pass over a declaration: its generics, its signature and field
/// types, and its body; imports, foreign blocks and macro bodies stay.
pub open spec fn rw_item(it: Item, m: List<SubstPair>) -> Item
    decreases it,
{
    match it {
        Item::FnItem(f) => Item::FnItem(rw_fn_decl(f, m)),
        Item::StructItem(name, g, fields) => Item::StructItem(
            name,
            rw_generics(g, m),
            rw_fields(fields, m),
        ),
        Item::UnionItem(name, g, fields) => Item::UnionItem(
            name,
            rw_generics(g, m),
            rw_field_defs(fields, m),
        ),
        Item::EnumItem(name, g, variants) => Item::EnumItem(
            name,
            rw_generics(g, m),
            rw_variants(variants, m),
        ),
        Item::InterfaceItem(name, g, supers, items) => Item::InterfaceItem(
            name,
            rw_generics(g, m),
            rw_bounds(supers, m),
            rw_items(items, m),
        ),
        Item::InterfaceAliasItem(name, g, bounds) => Item::InterfaceAliasItem(
            name,
            rw_generics(g, m),
            rw_bounds(bounds, m),
        ),
        Item::TypeAliasItem(name, g, bounds, ty) => Item::TypeAliasItem(
            name,
            rw_generics(g, m),
            rw_bounds(bounds, m),
            rw_ty_opt(ty, m),
        ),
        Item::ConstItem(name, ty, init) => Item::ConstItem(
            name,
            Box::new(rw_ty(*ty, m)),
            rw_expr_opt(init, m),
        ),
        Item::StaticItem(name, ty, init) => Item::StaticItem(
            name,
            Box::new(rw_ty(*ty, m)),
            rw_expr_opt(init, m),
        ),
        Item::ImplItem(g, iface, self_ty, items) => Item::ImplItem(
            rw_generics(g, m),
            match iface {
                Option::Some(p) => Option::Some(rw_path(p, m)),
                Option::None => Option::None,
            },
            Box::new(rw_ty(*self_ty, m)),
            rw_items(items, m),
        ),
        Item::ModuleItem(name, items) => Item::ModuleItem(
            name,
            match items {
                Option::Some(l) => Option::Some(rw_items(l, m)),
                Option::None => Option::None,
            },
        ),
        Item::UseItem(tokens) => Item::UseItem(tokens),
        Item::ForeignItem(tokens) => Item::ForeignItem(tokens),
        Item::MacroItem(tokens) => Item::MacroItem(tokens),
    }
}

/// One pass over a declaration list.
pub open spec fn rw_items(l: List<Item>, m: List<SubstPair>) -> List<Item>
    decreases l,
{
    match l {
        List::Nil => List::Nil,
        List::Cons(it, rest) => List::Cons(
            Box::new(rw_item(*it, m)),
            Box::new(rw_items(*rest, m)),
        ),
    }
}

/// One pass over a function-like declaration: generics, parameter and
/// receiver types, return type, body.
pub open spec fn rw_fn_decl(f: FnDecl, m: List<SubstPair>) -> FnDecl
    decreases f,
{
    FnDecl {
        name: f.name,
        generics: rw_generics(f.generics, m),
        params: rw_params(f.params, m),
        ret: rw_ty_opt(f.ret, m),
        body: match f.body {
            Option::Some(b) => Option::Some(rw_block(b, m)),
            Option::None => Option::None,
        },
    }
}

/// One pass over a parameter list.
pub open spec fn rw_params(l: List<Param>, m: List<SubstPair>) -> List<Param>
    decreases l,
{
    match l {
        List::Nil => List::Nil,
        List::Cons(p, rest) => List::Cons(
            Box::new(rw_param(*p, m)),
            Box::new(rw_params(*rest, m)),
        ),
    }
}

/// One pass over one parameter.
pub open spec fn rw_param(p: Param, m: List<SubstPair>) -> Param
    decreases p,
{
    match p {
        Param::Receiver(ty) => Param::Receiver(rw_ty_opt(ty, m)),
        Param::TypedParam(pat, ty) => Param::TypedParam(rw_pat(pat, m), rw_ty(ty, m)),
    }
}

/// One pass over a field list.
pub open spec fn rw_fields(f: Fields, m: List<SubstPair>) -> Fields
    decreases f,
{
    match f {
        Fields::NamedFields(l) => Fields::NamedFields(rw_field_defs(l, m)),
        Fields::UnnamedFields(l) => Fields::UnnamedFields(rw_tys(l, m)),
        Fields::UnitFields => Fields::UnitFields,
    }
}

/// One pass over named field definitions.
pub open spec fn rw_field_defs(l: List<FieldDef>, m: List<SubstPair>) -> List<FieldDef>
    decreases l,
{
    match l {
        List::Nil => List::Nil,
        List::Cons(f, rest) => List::Cons(
            Box::new(FieldDef { name: f.name, ty: rw_ty(f.ty, m) }),
            Box::new(rw_field_defs(*rest, m)),
        ),
    }
}

/// One pass over enum variants: fields and optional discriminant of each.
pub open spec fn rw_variants(l: List<Variant>, m: List<SubstPair>) -> List<Variant>
    decreases l,
{
    match l {
        List::Nil => List::Nil,
        List::Cons(v, rest) => List::Cons(
            Box::new(
                Variant {
                    name: v.name,
                    fields: rw_fields(v.fields, m),
                    discr: rw_expr_opt(v.discr, m),
                },
            ),
            Box::new(rw_variants(*rest, m)),
        ),
    }
}

// ------------------------------------------------------------------
// Generics
// ------------------------------------------------------------------

/// One pass over a declaration's generics: parameters and where-predicates.
pub open spec fn rw_generics(g: Generics, m: List<SubstPair>) -> Generics
    decreases g,
{
    Generics {
        params: rw_generic_params(g.params, m),
        where_preds: rw_where_preds(g.where_preds, m),
    }
}

/// One pass over a generic-parameter list.
pub open spec fn rw_generic_params(l: List<GenericParam>, m: List<SubstPair>) -> List<GenericParam>
    decreases l,
{
    match l {
        List::Nil => List::Nil,
        List::Cons(p, rest) => List::Cons(
            Box::new(rw_generic_param(*p, m)),
            Box::new(rw_generic_params(*rest, m)),
        ),
    }
}

/// One pass over one generic parameter: a type parameter's bounds, a
/// constant parameter's type and default; a lifetime parameter is a leaf.
pub open spec fn rw_generic_param(p: GenericParam, m: List<SubstPair>) -> GenericParam
    decreases p,
{
    match p {
        GenericParam::TypeParam(name, bounds) => GenericParam::TypeParam(
            name,
            rw_bounds(bounds, m),
        ),
        GenericParam::ConstParam(name, ty, dflt) => GenericParam::ConstParam(
            name,
            rw_ty(ty, m),
            rw_expr_opt(dflt, m),
        ),
        GenericParam::LifetimeParam(lt) => GenericParam::LifetimeParam(lt),
    }
}

/// One pass over a where-predicate list.
pub open spec fn rw_where_preds(l: List<WherePred>, m: List<SubstPair>) -> List<WherePred>
    decreases l,
{
    match l {
        List::Nil => List::Nil,
        List::Cons(p, rest) => List::Cons(
            Box::new(rw_where_pred(*p, m)),
            Box::new(rw_where_preds(*rest, m)),
        ),
    }
}

/// One pass over one where-predicate: a type predicate's bounded type and
/// bounds; a lifetime predicate is a leaf.
pub open spec fn rw_where_pred(p: WherePred, m: List<SubstPair>) -> WherePred
    decreases p,
{
    match p {
        WherePred::TypePred(ty, bounds) => WherePred::TypePred(
            rw_ty(ty, m),
            rw_bounds(bounds, m),
        ),
        WherePred::LifetimePred(lt) => WherePred::LifetimePred(lt),
    }
}

/// One pass over a whole compilation unit.
pub open spec fn rw_unit(u: SourceUnit, m: List<SubstPair>) -> SourceUnit
    decreases u,
{
    SourceUnit { items: rw_items(u.items, m) }
}

} // verus!
