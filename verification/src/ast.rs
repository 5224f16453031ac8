//! The syntax tree that the rewrite engine walks.
//!
//! Every node owns its children exclusively: lists are cons cells and
//! children sit behind `Box`, so two trees are equal exactly when they are
//! structurally equal, and that equality is the one the contracts use.
//! Names and unparsed token runs are byte lists for the same reason.

use vstd::prelude::*;

verus! {

/// An owned singly linked list; the shape every repeated child uses.
/// The head is boxed so that a list of any node kind has a finite size.
#[derive(Debug, PartialEq)]
pub enum List<T> {
    Nil,
    Cons(Box<T>, Box<List<T>>),
}

/// Turns a byte sequence into the list form that names and token runs use.
pub open spec fn name_from(s: Seq<u8>) -> List<u8>
    decreases s.len(),
{
    if s.len() == 0 {
        List::Nil
    } else {
        List::Cons(Box::new(s[0]), Box::new(name_from(s.drop_first())))
    }
}

/// Builds a name from raw bytes, for callers that hold ordinary strings.
pub fn name_of(s: &[u8]) -> (r: List<u8>)
    ensures
        r == name_from(s@),
{
    let r = name_of_from(s, 0);
    proof {
        assert(s@.skip(0) =~= s@);
    }
    r
}

fn name_of_from(s: &[u8], i: usize) -> (r: List<u8>)
    requires
        i <= s@.len(),
    ensures
        r == name_from(s@.skip(i as int)),
    decreases s@.len() - i,
{
    if i == s.len() {
        proof {
            assert(s@.skip(i as int) =~= Seq::<u8>::empty());
        }
        List::Nil
    } else {
        let head: u8 = s[i];
        let tail = name_of_from(s, i + 1);
        proof {
            assert(s@.skip(i as int).drop_first() =~= s@.skip(i + 1));
            assert(s@.skip(i as int)[0] == s@[i as int]);
        }
        List::Cons(Box::new(head), Box::new(tail))
    }
}

// ------------------------------------------------------------------
// Type references and types
// ------------------------------------------------------------------

/// A qualified name: the segments of a path such as `a::b::C<T>`.
#[derive(Debug, PartialEq)]
pub struct Path {
    pub segments: List<PathSeg>,
}

/// One path segment: a name with its generic arguments, if any.
#[derive(Debug, PartialEq)]
pub struct PathSeg {
    pub name: List<u8>,
    pub args: PathArgs,
}

/// The generic arguments attached to one path segment.
#[derive(Debug, PartialEq)]
pub enum PathArgs {
    /// No argument list at all.
    Plain,
    /// An angle-bracketed list, as in `C<T, 'a, N>`.
    Angle(List<GenArg>),
    /// A parenthesized list with an optional output, as in `F(A, B) -> C`.
    Paren(List<Ty>, Option<Box<Ty>>),
}

/// One generic argument inside an angle-bracketed list.
#[derive(Debug, PartialEq)]
pub enum GenArg {
    /// A type argument.
    TypeArg(Ty),
    /// A constant argument, kept as its unparsed tokens.
    ConstArg(List<u8>),
    /// A lifetime argument; opaque, it carries no type content.
    LifetimeArg(List<u8>),
    /// An associated-item binding, as in `Out = T`.
    BindingArg(List<u8>, Ty),
}

/// A full type reference: a path with an optional qualifying self type,
/// as in `<Q as a::b>::C`. This is the unit the substitution map keys on.
#[derive(Debug, PartialEq)]
pub struct TypeRef {
    pub qself: Option<Box<Ty>>,
    pub path: Path,
}

/// A type position in the tree.
#[derive(Debug, PartialEq)]
pub enum Ty {
    /// A named type reference; the only form a substitution can replace.
    Named(TypeRef),
    /// An array type; the element type is a child, the length tokens are opaque.
    Array(Box<Ty>, List<u8>),
    /// A slice type.
    Slice(Box<Ty>),
    /// A borrowed type, with an optional lifetime and a mutability mark.
    Borrowed(Option<List<u8>>, bool, Box<Ty>),
    /// A pointer type, with a mutability mark.
    Pointer(bool, Box<Ty>),
    /// A function type: parameter types and an optional return type.
    FnSig(List<Ty>, Option<Box<Ty>>),
    /// A dynamic interface type: a list of bounds.
    DynBound(List<Bound>),
    /// An anonymous interface type: a list of bounds.
    ImplBound(List<Bound>),
    /// A tuple type.
    Tuple(List<Ty>),
    /// A parenthesized type.
    Paren(Box<Ty>),
    /// An inferred placeholder; a leaf with no type-reference capacity.
    Infer,
    /// The empty type; a leaf with no type-reference capacity.
    Never,
    /// A macro invocation in type position; its body is opaque tokens.
    MacroTy(List<u8>),
    /// An unparsed token run in type position; opaque.
    Verbatim(List<u8>),
}

/// One bound in a bound list: an interface (capability) or a lifetime.
#[derive(Debug, PartialEq)]
pub enum Bound {
    /// An interface bound; its path may carry generic arguments.
    Interface(Path),
    /// A lifetime bound; opaque.
    LifetimeBound(List<u8>),
}

// ------------------------------------------------------------------
// Expressions
// ------------------------------------------------------------------

/// A unary operator; carried through a rewrite unchanged.
#[derive(Debug, PartialEq)]
pub enum UnaryOp {
    Not,
    Negate,
}

/// A binary operator; carried through a rewrite unchanged.
#[derive(Debug, PartialEq)]
pub enum BinaryOp {
    Plus,
    Minus,
    Times,
    Divide,
    Modulo,
    LogicAnd,
    LogicOr,
    BitAnd,
    BitOr,
    BitXor,
    ShiftLeft,
    ShiftRight,
    CmpEq,
    CmpNe,
    CmpLt,
    CmpLe,
    CmpGt,
    CmpGe,
}

/// An expression position in the tree.
#[derive(Debug, PartialEq)]
pub enum Expr {
    /// A literal; a leaf.
    Lit(List<u8>),
    /// A path expression with an optional qualifying self type.
    PathExpr(Option<Box<Ty>>, Path),
    /// A unary form.
    Unary(UnaryOp, Box<Expr>),
    /// A binary form.
    Binary(BinaryOp, Box<Expr>, Box<Expr>),
    /// A borrow form, with a mutability mark.
    Borrow(bool, Box<Expr>),
    /// A dereference form.
    Deref(Box<Expr>),
    /// A cast to a type.
    Cast(Box<Expr>, Box<Ty>),
    /// A call: callee and arguments.
    Call(Box<Expr>, List<Expr>),
    /// A method call: receiver, method name, optional explicit generic
    /// arguments, and arguments.
    MethodCall(Box<Expr>, List<u8>, Option<List<GenArg>>, List<Expr>),
    /// An indexing form.
    Index(Box<Expr>, Box<Expr>),
    /// A range with optional ends.
    Range(Option<Box<Expr>>, Option<Box<Expr>>),
    /// Struct-literal construction: optional qualifying self type, path,
    /// named field values, and an optional rest expression.
    StructLit(Option<Box<Ty>>, Path, List<FieldVal>, Option<Box<Expr>>),
    /// A closure: parameter patterns, optional return annotation, body.
    Closure(List<Pat>, Option<Box<Ty>>, Box<Expr>),
    /// A conditional: condition, then-block, optional else expression.
    IfExpr(Box<Expr>, Block, Option<Box<Expr>>),
    /// A match: scrutinee and arms.
    MatchExpr(Box<Expr>, List<Arm>),
    /// An unconditional loop.
    LoopExpr(Block),
    /// A while loop: condition and body.
    WhileExpr(Box<Expr>, Block),
    /// An iterator loop: binding pattern, iterated expression, body.
    ForExpr(Box<Pat>, Box<Expr>, Block),
    /// A block expression.
    BlockExpr(Block),
    /// A block exempt from the language's safety checks.
    UncheckedBlock(Block),
    /// A suspendable block.
    AsyncBlock(Block),
    /// A compile-time block.
    ConstBlock(Block),
    /// An early return with an optional payload.
    Ret(Option<Box<Expr>>),
    /// A loop exit with an optional payload.
    BreakExpr(Option<Box<Expr>>),
    /// A yield with an optional payload.
    YieldExpr(Option<Box<Expr>>),
    /// A loop continuation; a leaf.
    ContinueExpr,
    /// A macro invocation in expression position; opaque tokens.
    MacroExpr(List<u8>),
}

/// One named field value inside struct-literal construction.
#[derive(Debug, PartialEq)]
pub struct FieldVal {
    pub name: List<u8>,
    pub value: Expr,
}

/// One arm of a match: pattern, optional guard, body.
#[derive(Debug, PartialEq)]
pub struct Arm {
    pub pat: Pat,
    pub guard: Option<Box<Expr>>,
    pub body: Expr,
}

/// A brace-enclosed run of statements.
#[derive(Debug, PartialEq)]
pub struct Block {
    pub stmts: List<Stmt>,
}

/// A statement position in the tree.
#[derive(Debug, PartialEq)]
pub enum Stmt {
    /// A let binding: pattern, optional type annotation, optional initializer.
    LetStmt(Box<Pat>, Option<Box<Ty>>, Option<Box<Expr>>),
    /// An expression statement.
    ExprStmt(Box<Expr>),
    /// A nested declaration.
    ItemStmt(Box<Item>),
    /// A macro invocation in statement position; opaque tokens.
    MacroStmt(List<u8>),
}

// ------------------------------------------------------------------
// Patterns
// ------------------------------------------------------------------

/// A pattern position in the tree.
#[derive(Debug, PartialEq)]
pub enum Pat {
    /// The wildcard; a leaf.
    Wild,
    /// A literal pattern; a leaf.
    LitPat(List<u8>),
    /// A range pattern, kept as its tokens; a leaf.
    RangePat(List<u8>),
    /// The rest marker; a leaf.
    RestPat,
    /// A path pattern with an optional qualifying self type.
    PathPat(Option<Box<Ty>>, Path),
    /// A struct pattern: optional qualifying self type, path, field patterns.
    StructPat(Option<Box<Ty>>, Path, List<FieldPat>),
    /// A tuple-struct or enum-variant pattern: optional qualifying self
    /// type, path, element patterns.
    TupleStructPat(Option<Box<Ty>>, Path, List<Pat>),
    /// A tuple pattern.
    TuplePat(List<Pat>),
    /// A slice pattern.
    SlicePat(List<Pat>),
    /// An alternation pattern.
    OrPat(List<Pat>),
    /// A parenthesized pattern.
    ParenPat(Box<Pat>),
    /// A borrow pattern, with a mutability mark.
    BorrowPat(bool, Box<Pat>),
    /// A type-annotated pattern.
    TypedPat(Box<Pat>, Box<Ty>),
    /// A macro invocation in pattern position; opaque tokens.
    MacroPat(List<u8>),
}

/// One named field inside a struct pattern.
#[derive(Debug, PartialEq)]
pub struct FieldPat {
    pub name: List<u8>,
    pub pat: Pat,
}

// ------------------------------------------------------------------
// Declarations
// ------------------------------------------------------------------

/// A top-level or nested declaration.
#[derive(Debug, PartialEq)]
pub enum Item {
    /// A function-like declaration.
    FnItem(FnDecl),
    /// A struct: name, generics, fields.
    StructItem(List<u8>, Generics, Fields),
    /// A union: name, generics, named fields.
    UnionItem(List<u8>, Generics, List<FieldDef>),
    /// An enum: name, generics, variants.
    EnumItem(List<u8>, Generics, List<Variant>),
    /// An interface (capability) definition: name, generics, supertype
    /// bounds, associated items.
    InterfaceItem(List<u8>, Generics, List<Bound>, List<Item>),
    /// An interface alias: name, generics, bounds.
    InterfaceAliasItem(List<u8>, Generics, List<Bound>),
    /// A type alias: name, generics, bounds (for associated types), and the
    /// aliased type where one is given.
    TypeAliasItem(List<u8>, Generics, List<Bound>, Option<Box<Ty>>),
    /// A constant: name, declared type, optional initializer.
    ConstItem(List<u8>, Box<Ty>, Option<Box<Expr>>),
    /// A static: name, declared type, optional initializer.
    StaticItem(List<u8>, Box<Ty>, Option<Box<Expr>>),
    /// An implementation block: generics, implemented interface path if
    /// any, self type, associated items.
    ImplItem(Generics, Option<Path>, Box<Ty>, List<Item>),
    /// A module: name, and its declarations where they are inline.
    ModuleItem(List<u8>, Option<List<Item>>),
    /// An import; name-level only, a leaf.
    UseItem(List<u8>),
    /// A foreign-linkage block, kept as opaque tokens; a leaf.
    ForeignItem(List<u8>),
    /// A macro invocation in declaration position; opaque tokens.
    MacroItem(List<u8>),
}

/// A function-like declaration: free function or associated function.
#[derive(Debug, PartialEq)]
pub struct FnDecl {
    pub name: List<u8>,
    pub generics: Generics,
    pub params: List<Param>,
    pub ret: Option<Box<Ty>>,
    pub body: Option<Block>,
}

/// One parameter of a function-like declaration.
#[derive(Debug, PartialEq)]
pub enum Param {
    /// The receiver, with its type where one is written.
    Receiver(Option<Box<Ty>>),
    /// An ordinary parameter: pattern and type.
    TypedParam(Pat, Ty),
}

/// The field list of a struct or variant.
#[derive(Debug, PartialEq)]
pub enum Fields {
    /// Named fields.
    NamedFields(List<FieldDef>),
    /// Positional fields.
    UnnamedFields(List<Ty>),
    /// No fields.
    UnitFields,
}

/// One named field: name and type.
#[derive(Debug, PartialEq)]
pub struct FieldDef {
    pub name: List<u8>,
    pub ty: Ty,
}

/// One enum variant: name, fields, optional discriminant expression.
#[derive(Debug, PartialEq)]
pub struct Variant {
    pub name: List<u8>,
    pub fields: Fields,
    pub discr: Option<Box<Expr>>,
}

// ------------------------------------------------------------------
// Generics
// ------------------------------------------------------------------

/// The generics of a declaration: parameters and where-predicates.
#[derive(Debug, PartialEq)]
pub struct Generics {
    pub params: List<GenericParam>,
    pub where_preds: List<WherePred>,
}

/// One generic parameter.
#[derive(Debug, PartialEq)]
pub enum GenericParam {
    /// A type parameter: name and bounds.
    TypeParam(List<u8>, List<Bound>),
    /// A constant parameter: name, declared type, optional default.
    ConstParam(List<u8>, Ty, Option<Box<Expr>>),
    /// A lifetime parameter; opaque, a leaf.
    LifetimeParam(List<u8>),
}

/// One where-clause predicate.
#[derive(Debug, PartialEq)]
pub enum WherePred {
    /// A bounded type with its bound list.
    TypePred(Ty, List<Bound>),
    /// A lifetime predicate; a leaf.
    LifetimePred(List<u8>),
}

/// A whole compilation unit: the declarations of one parsed source file.
#[derive(Debug, PartialEq)]
pub struct SourceUnit {
    pub items: List<Item>,
}

} // verus!
