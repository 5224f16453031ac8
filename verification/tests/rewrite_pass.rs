//! Behavioural tests of the rewrite pass, driven through the public API.

use replace_types::ast::Arm;
use replace_types::ast::Block;
use replace_types::ast::Bound;
use replace_types::ast::Expr;
use replace_types::ast::FieldDef;
use replace_types::ast::Fields;
use replace_types::ast::FnDecl;
use replace_types::ast::GenArg;
use replace_types::ast::GenericParam;
use replace_types::ast::Generics;
use replace_types::ast::Item;
use replace_types::ast::List;
use replace_types::ast::Param;
use replace_types::ast::Pat;
use replace_types::ast::Path;
use replace_types::ast::PathArgs;
use replace_types::ast::PathSeg;
use replace_types::ast::SourceUnit;
use replace_types::ast::Stmt;
use replace_types::ast::Ty;
use replace_types::ast::TypeRef;
use replace_types::ast::Variant;
use replace_types::ast::WherePred;
use replace_types::ast::name_of;
use replace_types::subst::SubstPair;
use replace_types::ReplaceTypes;

fn nm(s: &str) -> List<u8> {
    name_of(s.as_bytes())
}

fn cons1<T>(x: T) -> List<T> {
    List::Cons(Box::new(x), Box::new(List::Nil))
}

fn cons2<T>(a: T, b: T) -> List<T> {
    List::Cons(Box::new(a), Box::new(cons1(b)))
}

fn seg(s: &str) -> PathSeg {
    PathSeg { name: nm(s), args: PathArgs::Plain }
}

fn seg_args(s: &str, args: List<GenArg>) -> PathSeg {
    PathSeg { name: nm(s), args: PathArgs::Angle(args) }
}

fn path1(s: &str) -> Path {
    Path { segments: cons1(seg(s)) }
}

fn tref(s: &str) -> TypeRef {
    TypeRef { qself: None, path: path1(s) }
}

fn tref_args(s: &str, args: List<GenArg>) -> TypeRef {
    TypeRef { qself: None, path: Path { segments: cons1(seg_args(s, args)) } }
}

fn named(s: &str) -> Ty {
    Ty::Named(tref(s))
}

fn named_args(s: &str, args: List<GenArg>) -> Ty {
    Ty::Named(tref_args(s, args))
}

fn type_arg(t: Ty) -> List<GenArg> {
    cons1(GenArg::TypeArg(t))
}

fn pair(k: TypeRef, v: TypeRef) -> SubstPair {
    SubstPair { key: k, value: v }
}

fn no_generics() -> Generics {
    Generics { params: List::Nil, where_preds: List::Nil }
}

fn fn_item(name: &str, params: List<Param>, ret: Option<Box<Ty>>, body: Option<Block>) -> Item {
    Item::FnItem(FnDecl { name: nm(name), generics: no_generics(), params, ret, body })
}

#[test]
fn scenario_rename_function_signature() {
    let rt = ReplaceTypes::new(cons1(pair(tref("OldName"), tref("NewName"))));
    let before = fn_item(
        "f",
        cons1(Param::TypedParam(Pat::PathPat(None, path1("x")), named("OldName"))),
        Some(Box::new(named("OldName"))),
        None,
    );
    let after = fn_item(
        "f",
        cons1(Param::TypedParam(Pat::PathPat(None, path1("x")), named("NewName"))),
        Some(Box::new(named("NewName"))),
        None,
    );
    assert_eq!(rt.rewrite_item(before), after);
}

#[test]
fn scenario_generic_argument_exact_match() {
    let key = tref_args("Old", type_arg(named("Int")));
    let value = tref_args("New", type_arg(named("Int")));
    let rt = ReplaceTypes::new(cons1(pair(key, value)));
    let before = Item::StructItem(
        nm("S"),
        no_generics(),
        Fields::NamedFields(cons2(
            FieldDef { name: nm("a"), ty: named_args("Old", type_arg(named("Int"))) },
            FieldDef { name: nm("b"), ty: named_args("Old", type_arg(named("Text"))) },
        )),
    );
    let after = Item::StructItem(
        nm("S"),
        no_generics(),
        Fields::NamedFields(cons2(
            FieldDef { name: nm("a"), ty: named_args("New", type_arg(named("Int"))) },
            FieldDef { name: nm("b"), ty: named_args("Old", type_arg(named("Text"))) },
        )),
    );
    assert_eq!(rt.rewrite_item(before), after);
}

fn produces_bound(output: Ty) -> Ty {
    Ty::ImplBound(cons1(Bound::Interface(Path {
        segments: cons1(PathSeg {
            name: nm("Produces"),
            args: PathArgs::Paren(List::Nil, Some(Box::new(output))),
        }),
    })))
}

#[test]
fn scenario_interface_bound_output() {
    let rt = ReplaceTypes::new(cons1(pair(tref("OldName"), tref("NewName"))));
    let before = fn_item("g", List::Nil, Some(Box::new(produces_bound(named("OldName")))), None);
    let after = fn_item("g", List::Nil, Some(Box::new(produces_bound(named("NewName")))), None);
    assert_eq!(rt.rewrite_item(before), after);
}

#[test]
fn exact_match_required_for_replacement() {
    let key = tref_args("Old", type_arg(named("Int")));
    let value = tref_args("New", type_arg(named("Int")));
    let rt = ReplaceTypes::new(cons1(pair(key, value)));
    // A bare `Old`, and an `Old` with a different argument, both stay.
    assert_eq!(rt.rewrite_type(named("Old")), named("Old"));
    assert_eq!(
        rt.rewrite_type(named_args("Old", type_arg(named("Text")))),
        named_args("Old", type_arg(named("Text"))),
    );
    // The exact form is replaced.
    assert_eq!(
        rt.rewrite_type(named_args("Old", type_arg(named("Int")))),
        named_args("New", type_arg(named("Int"))),
    );
}

#[test]
fn replacement_is_not_rescanned() {
    // K -> V while V is itself a key mapped to W: one pass stops at V.
    let rt = ReplaceTypes::new(cons2(
        pair(tref("K"), tref("V")),
        pair(tref("V"), tref("W")),
    ));
    assert_eq!(rt.rewrite_type(named("K")), named("V"));
    assert_eq!(rt.rewrite_type(named("V")), named("W"));
}

#[test]
fn first_matching_entry_wins() {
    let rt = ReplaceTypes::new(cons2(
        pair(tref("A"), tref("B")),
        pair(tref("A"), tref("C")),
    ));
    assert_eq!(rt.rewrite_type(named("A")), named("B"));
}

#[test]
fn opaque_macro_type_unchanged() {
    let rt = ReplaceTypes::new(cons1(pair(tref("OldName"), tref("NewName"))));
    let blob = Ty::MacroTy(nm("make_type!(OldName)"));
    assert_eq!(rt.rewrite_type(blob), Ty::MacroTy(nm("make_type!(OldName)")));
    let verbatim = Ty::Verbatim(nm("OldName"));
    assert_eq!(rt.rewrite_type(verbatim), Ty::Verbatim(nm("OldName")));
}

#[test]
fn opaque_expr_and_item_unchanged() {
    let rt = ReplaceTypes::new(cons1(pair(tref("OldName"), tref("NewName"))));
    assert_eq!(
        rt.rewrite_expr(Expr::MacroExpr(nm("emit!(OldName)"))),
        Expr::MacroExpr(nm("emit!(OldName)")),
    );
    assert_eq!(
        rt.rewrite_item(Item::MacroItem(nm("declare!(OldName)"))),
        Item::MacroItem(nm("declare!(OldName)")),
    );
    assert_eq!(
        rt.rewrite_item(Item::UseItem(nm("a::OldName"))),
        Item::UseItem(nm("a::OldName")),
    );
    assert_eq!(
        rt.rewrite_item(Item::ForeignItem(nm("fn c_entry(x: OldName);"))),
        Item::ForeignItem(nm("fn c_entry(x: OldName);")),
    );
}

fn deep_marker_item(marker: &str) -> Item {
    // A closure return annotation, inside a match arm, inside a loop body.
    let closure = Expr::Closure(
        List::Nil,
        Some(Box::new(named(marker))),
        Box::new(Expr::Lit(nm("0"))),
    );
    let arm = Arm { pat: Pat::Wild, guard: None, body: closure };
    let match_expr = Expr::MatchExpr(Box::new(Expr::Lit(nm("1"))), cons1(arm));
    let loop_expr = Expr::LoopExpr(Block { stmts: cons1(Stmt::ExprStmt(Box::new(match_expr))) });
    fn_item(
        "h",
        List::Nil,
        None,
        Some(Block { stmts: cons1(Stmt::ExprStmt(Box::new(loop_expr))) }),
    )
}

#[test]
fn marker_found_in_deep_nesting() {
    let rt = ReplaceTypes::new(cons1(pair(tref("Marker"), tref("Replaced"))));
    assert_eq!(rt.rewrite_item(deep_marker_item("Marker")), deep_marker_item("Replaced"));
}

#[test]
fn idempotence_on_concrete_tree() {
    let rt = ReplaceTypes::new(cons1(pair(tref("OldName"), tref("NewName"))));
    let before = deep_marker_item("OldName");
    let once = rt.rewrite_item(before);
    let again = rt.rewrite_item(deep_marker_item("OldName"));
    let twice = rt.rewrite_item(again);
    assert_eq!(once, twice);
}

#[test]
fn second_pass_differs_for_interfering_table() {
    // With `A -> B` and `C<B> -> D` the values are no keys, yet a second
    // pass still changes the tree: the fixed-point law asks for more than
    // key/value disjointness.
    let rt = ReplaceTypes::new(cons2(
        pair(tref("A"), tref("B")),
        pair(tref_args("C", type_arg(named("B"))), tref("D")),
    ));
    let start = named_args("C", type_arg(named("A")));
    let once = rt.rewrite_type(start);
    assert_eq!(once, named_args("C", type_arg(named("B"))));
    let twice = rt.rewrite_type(once);
    assert_eq!(twice, named("D"));
}

#[test]
fn qualified_self_type_is_descended() {
    let rt = ReplaceTypes::new(cons1(pair(tref("OldName"), tref("NewName"))));
    let before = Ty::Named(TypeRef {
        qself: Some(Box::new(named("OldName"))),
        path: path1("Out"),
    });
    let after = Ty::Named(TypeRef {
        qself: Some(Box::new(named("NewName"))),
        path: path1("Out"),
    });
    assert_eq!(rt.rewrite_type(before), after);
}

#[test]
fn rewrite_unit_covers_nested_module() {
    let rt = ReplaceTypes::new(cons1(pair(tref("OldName"), tref("NewName"))));
    let alias = Item::TypeAliasItem(
        nm("Alias"),
        no_generics(),
        List::Nil,
        Some(Box::new(named("OldName"))),
    );
    let before = SourceUnit { items: cons1(Item::ModuleItem(nm("inner"), Some(cons1(alias)))) };
    let alias_after = Item::TypeAliasItem(
        nm("Alias"),
        no_generics(),
        List::Nil,
        Some(Box::new(named("NewName"))),
    );
    let after = SourceUnit {
        items: cons1(Item::ModuleItem(nm("inner"), Some(cons1(alias_after)))),
    };
    assert_eq!(rt.rewrite_unit(before), after);
}

#[test]
fn pattern_type_annotation_rewritten() {
    let rt = ReplaceTypes::new(cons1(pair(tref("OldName"), tref("NewName"))));
    let before = Pat::TypedPat(Box::new(Pat::Wild), Box::new(named("OldName")));
    let after = Pat::TypedPat(Box::new(Pat::Wild), Box::new(named("NewName")));
    assert_eq!(rt.rewrite_pattern(before), after);
}

#[test]
fn expression_cast_and_turbofish_rewritten() {
    let rt = ReplaceTypes::new(cons1(pair(tref("OldName"), tref("NewName"))));
    let cast = Expr::Cast(Box::new(Expr::Lit(nm("0"))), Box::new(named("OldName")));
    assert_eq!(
        rt.rewrite_expr(cast),
        Expr::Cast(Box::new(Expr::Lit(nm("0"))), Box::new(named("NewName"))),
    );
    let call = Expr::MethodCall(
        Box::new(Expr::Lit(nm("x"))),
        nm("collect"),
        Some(type_arg(named("OldName"))),
        List::Nil,
    );
    assert_eq!(
        rt.rewrite_expr(call),
        Expr::MethodCall(
            Box::new(Expr::Lit(nm("x"))),
            nm("collect"),
            Some(type_arg(named("NewName"))),
            List::Nil,
        ),
    );
}

#[test]
fn const_and_lifetime_arguments_opaque() {
    let rt = ReplaceTypes::new(cons1(pair(tref("OldName"), tref("NewName"))));
    let constish = named_args("Holder", cons1(GenArg::ConstArg(nm("OldName"))));
    assert_eq!(
        rt.rewrite_type(constish),
        named_args("Holder", cons1(GenArg::ConstArg(nm("OldName")))),
    );
    let lifetimeish = named_args("Holder", cons1(GenArg::LifetimeArg(nm("'a"))));
    assert_eq!(
        rt.rewrite_type(lifetimeish),
        named_args("Holder", cons1(GenArg::LifetimeArg(nm("'a")))),
    );
}

#[test]
fn name_of_builds_byte_list() {
    assert_eq!(
        name_of(b"ab"),
        List::Cons(Box::new(97u8), Box::new(List::Cons(Box::new(98u8), Box::new(List::Nil)))),
    );
    assert_eq!(nm("x"), nm("x"));
    assert!(nm("x") != nm("y"));
    assert_eq!(name_of(b""), List::<u8>::Nil);
}

#[test]
fn generics_and_where_clauses_rewritten() {
    let rt = ReplaceTypes::new(cons1(pair(tref("Old"), tref("New"))));
    let generics_with = |t: &str| Generics {
        params: cons2(
            GenericParam::TypeParam(
                nm("T"),
                cons1(Bound::Interface(Path {
                    segments: cons1(seg_args("Produces", type_arg(named(t)))),
                })),
            ),
            GenericParam::ConstParam(nm("N"), named(t), Some(Box::new(Expr::Lit(nm("4"))))),
        ),
        where_preds: cons2(
            WherePred::TypePred(named(t), cons1(Bound::Interface(path1("Marker")))),
            WherePred::LifetimePred(nm("'a")),
        ),
    };
    let before = Item::FnItem(FnDecl {
        name: nm("f"),
        generics: generics_with("Old"),
        params: List::Nil,
        ret: None,
        body: None,
    });
    let after = Item::FnItem(FnDecl {
        name: nm("f"),
        generics: generics_with("New"),
        params: List::Nil,
        ret: None,
        body: None,
    });
    assert_eq!(rt.rewrite_item(before), after);
}

#[test]
fn impl_block_enum_and_discriminant_rewritten() {
    let rt = ReplaceTypes::new(cons1(pair(tref("Old"), tref("New"))));
    let enum_with = |t: &str| Item::EnumItem(
        nm("E"),
        no_generics(),
        cons1(Variant {
            name: nm("V"),
            fields: Fields::UnnamedFields(cons1(named(t))),
            discr: Some(Box::new(Expr::Cast(
                Box::new(Expr::Lit(nm("1"))),
                Box::new(named(t)),
            ))),
        }),
    );
    let impl_with = |t: &str| Item::ImplItem(
        no_generics(),
        Some(Path { segments: cons1(seg_args("Produces", type_arg(named(t)))) }),
        Box::new(named(t)),
        cons1(Item::ConstItem(nm("C"), Box::new(named(t)), None)),
    );
    let before = SourceUnit { items: cons2(enum_with("Old"), impl_with("Old")) };
    let after = SourceUnit { items: cons2(enum_with("New"), impl_with("New")) };
    assert_eq!(rt.rewrite_unit(before), after);
}
