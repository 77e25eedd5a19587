//! The syntax tree that the formatter renders.
//!
//! The tree holds what the rendering rules read and nothing else: names and
//! literal values as plain values, tokens whose presence matters as `bool`,
//! and one variant `Other` in each category for every construct that has no
//! rendering rule.

use crate::punct::{Add, Colon2, Comma, Or, Punctuated};
use vstd::prelude::*;

verus! {

/// Whether an attribute applies to what follows it or to what encloses it.
#[derive(Clone, Copy, Debug, PartialEq, Eq)]
pub enum AttrStyle {
    Outer,
    Inner,
}

/// An attribute: `#[..]`, `#![..]` or a documentation comment.
#[derive(Debug)]
pub struct Attribute {
    pub style: AttrStyle,
    pub meta: Meta,
}

/// The content of an attribute.
#[derive(Debug)]
pub enum Meta {
    /// A bare name, as in `#[test]`.
    Word(String),
    /// A name applied to a list, as in `#[derive(Copy, Clone)]`.
    List(MetaList),
    /// A name set to a literal, as in `#[path = "sys.rs"]`.
    NameValue(MetaNameValue),
    /// Any content of another shape.
    Other,
}

#[derive(Debug)]
pub struct MetaList {
    pub ident: String,
    pub nested: Punctuated<NestedMeta, Comma>,
}

#[derive(Debug)]
pub struct MetaNameValue {
    pub ident: String,
    pub lit: Lit,
}

/// An element of the list of a `Meta::List`.
#[derive(Debug)]
pub enum NestedMeta {
    Meta(Meta),
    Literal(Lit),
}

/// The suffix of an integer literal.
#[derive(Clone, Copy, Debug, PartialEq, Eq)]
pub enum IntSuffix {
    I8,
    I16,
    I32,
    I64,
    I128,
    Isize,
    U8,
    U16,
    U32,
    U64,
    U128,
    Usize,
    /// No suffix.
    Unsuffixed,
}

/// An integer literal: its value and its suffix.
#[derive(Debug)]
pub struct LitInt {
    pub value: u64,
    pub suffix: IntSuffix,
}

/// A literal.
#[derive(Debug)]
pub enum Lit {
    /// A string literal, held as the value that it denotes.
    Str(String),
    Int(LitInt),
    /// A literal of any other kind.
    Other,
}

#[derive(Debug)]
pub struct Lifetime {
    pub ident: String,
}

/// A path such as `std::io::Result<T>`.
#[derive(Debug)]
pub struct Path {
    pub leading_colon: bool,
    pub segments: Punctuated<PathSegment, Colon2>,
}

#[derive(Debug)]
pub struct PathSegment {
    pub ident: String,
    pub arguments: PathArguments,
}

/// The generic arguments of a path segment.
#[derive(Debug)]
pub enum PathArguments {
    /// No arguments.
    Empty,
    /// Arguments in angle brackets, as in `Vec<T>`.
    AngleBracketed(AngleBracketedGenericArguments),
    /// Arguments of another form.
    Other,
}

#[derive(Debug)]
pub struct AngleBracketedGenericArguments {
    /// Whether `::` stands before the opening bracket.
    pub colon2_token: bool,
    pub args: Punctuated<GenericArgument, Comma>,
}

#[derive(Debug)]
pub enum GenericArgument {
    Lifetime(Lifetime),
    Type(Type),
    Const(Expr),
    /// A binding, a constraint or any other argument.
    Other,
}

/// A type.
#[derive(Debug)]
pub enum Type {
    Slice(TypeSlice),
    Array(TypeArray),
    Reference(TypeReference),
    Tuple(TypeTuple),
    Path(TypePath),
    /// A type of any other kind.
    Other,
}

#[derive(Debug)]
pub struct TypeSlice {
    pub elem: Box<Type>,
}

#[derive(Debug)]
pub struct TypeArray {
    pub elem: Box<Type>,
    pub len: Expr,
}

#[derive(Debug)]
pub struct TypeReference {
    pub lifetime: Option<Lifetime>,
    pub mutability: bool,
    pub elem: Box<Type>,
}

#[derive(Debug)]
pub struct TypeTuple {
    pub elems: Punctuated<Type, Comma>,
}

#[derive(Debug)]
pub struct TypePath {
    /// Whether the path is qualified by a self type, as in `<T as Tr>::Out`.
    pub qself: bool,
    pub path: Path,
}

/// A binary operator.
#[derive(Clone, Copy, Debug, PartialEq, Eq)]
pub enum BinOp {
    Add,
    Sub,
    Mul,
    Div,
    Rem,
    And,
    Or,
    BitXor,
    BitAnd,
    BitOr,
    Shl,
    Shr,
    Eq,
    Lt,
    Le,
    Ne,
    Ge,
    Gt,
    AddEq,
    SubEq,
    MulEq,
    DivEq,
    RemEq,
    BitXorEq,
    BitAndEq,
    BitOrEq,
    ShlEq,
    ShrEq,
}

/// A unary operator.
#[derive(Clone, Copy, Debug, PartialEq, Eq)]
pub enum UnOp {
    Deref,
    Not,
    Neg,
}

/// The member of a struct that a field access or a field value names.
#[derive(Debug)]
pub enum Member {
    Named(String),
    /// A member given by its position.
    Unnamed,
}

/// An expression.
#[derive(Debug)]
pub enum Expr {
    Binary(ExprBinary),
    Block(ExprBlock),
    Call(ExprCall),
    Field(ExprField),
    ForLoop(ExprForLoop),
    If(ExprIf),
    Lit(ExprLit),
    Macro(ExprMacro),
    Match(ExprMatch),
    MethodCall(ExprMethodCall),
    Path(ExprPath),
    Reference(ExprReference),
    Struct(ExprStruct),
    Unary(ExprUnary),
    /// An expression of any other kind.
    Other,
}

#[derive(Debug)]
pub struct ExprBinary {
    pub attrs: Vec<Attribute>,
    pub left: Box<Expr>,
    pub op: BinOp,
    pub right: Box<Expr>,
}

#[derive(Debug)]
pub struct ExprBlock {
    pub attrs: Vec<Attribute>,
    /// Whether the block carries a label.
    pub label: bool,
    pub block: Block,
}

#[derive(Debug)]
pub struct ExprCall {
    pub attrs: Vec<Attribute>,
    pub func: Box<Expr>,
    pub args: Punctuated<Expr, Comma>,
}

#[derive(Debug)]
pub struct ExprField {
    pub attrs: Vec<Attribute>,
    pub base: Box<Expr>,
    pub member: Member,
}

#[derive(Debug)]
pub struct ExprForLoop {
    pub attrs: Vec<Attribute>,
    /// Whether the loop carries a label.
    pub label: bool,
    pub pat: Box<Pat>,
    pub expr: Box<Expr>,
    pub body: Block,
}

#[derive(Debug)]
pub struct ExprIf {
    pub attrs: Vec<Attribute>,
    pub cond: Box<Expr>,
    pub then_branch: Block,
    pub else_branch: Option<Box<Expr>>,
}

#[derive(Debug)]
pub struct ExprLit {
    pub attrs: Vec<Attribute>,
    pub lit: Lit,
}

#[derive(Debug)]
pub struct ExprMacro {
    pub attrs: Vec<Attribute>,
    pub mac: Macro,
}

#[derive(Debug)]
pub struct ExprMatch {
    pub attrs: Vec<Attribute>,
    pub expr: Box<Expr>,
    pub arms: Vec<Arm>,
}

#[derive(Debug)]
pub struct ExprMethodCall {
    pub attrs: Vec<Attribute>,
    pub receiver: Box<Expr>,
    pub method: String,
    /// Whether generic arguments are given to the method.
    pub turbofish: bool,
    pub args: Punctuated<Expr, Comma>,
}

#[derive(Debug)]
pub struct ExprPath {
    pub attrs: Vec<Attribute>,
    /// Whether the path is qualified by a self type.
    pub qself: bool,
    pub path: Path,
}

#[derive(Debug)]
pub struct ExprReference {
    pub attrs: Vec<Attribute>,
    pub mutability: bool,
    pub expr: Box<Expr>,
}

#[derive(Debug)]
pub struct ExprStruct {
    pub attrs: Vec<Attribute>,
    pub path: Path,
    pub fields: Punctuated<FieldValue, Comma>,
    /// Whether `..` follows the fields.
    pub dot2_token: bool,
    /// The value that the remaining fields are taken from.
    pub rest: Option<Box<Expr>>,
}

#[derive(Debug)]
pub struct ExprUnary {
    pub attrs: Vec<Attribute>,
    pub op: UnOp,
    pub expr: Box<Expr>,
}

/// One arm of a `match`.  A guard is not part of the tree: it is not
/// rendered.
#[derive(Debug)]
pub struct Arm {
    pub attrs: Vec<Attribute>,
    /// Whether `|` stands before the first pattern.
    pub leading_vert: bool,
    pub pats: Punctuated<Pat, Or>,
    pub body: Box<Expr>,
    /// Whether a comma follows the body.
    pub comma: bool,
}

/// A field with its value in a struct expression.
#[derive(Debug)]
pub struct FieldValue {
    pub attrs: Vec<Attribute>,
    pub member: Member,
    pub expr: Expr,
}

/// How the tokens of a macro invocation are enclosed.
#[derive(Clone, Copy, Debug, PartialEq, Eq)]
pub enum MacroDelimiter {
    Paren,
    Brace,
    Bracket,
}

/// A macro invocation.
#[derive(Debug)]
pub struct Macro {
    pub path: Path,
    pub delimiter: MacroDelimiter,
    /// The tokens handed to the macro, as text.
    pub tts: String,
}

/// A pattern.
#[derive(Debug)]
pub enum Pat {
    Wild,
    Ident(PatIdent),
    Tuple(PatTuple),
    TupleStruct(PatTupleStruct),
    /// A pattern of any other kind.
    Other,
}

#[derive(Debug)]
pub struct PatIdent {
    pub by_ref: bool,
    pub mutability: bool,
    pub ident: String,
    /// Whether a subpattern follows the name, as in `x @ 1..=9`.
    pub subpat: bool,
}

#[derive(Debug)]
pub struct PatTuple {
    pub front: Punctuated<Pat, Comma>,
    /// Whether `..` stands among the elements.
    pub dot2_token: bool,
    /// Whether a comma follows `..`.
    pub comma_token: bool,
    pub back: Punctuated<Pat, Comma>,
}

#[derive(Debug)]
pub struct PatTupleStruct {
    pub path: Path,
    pub pat: PatTuple,
}

/// A braced block of statements.
#[derive(Debug)]
pub struct Block {
    pub stmts: Vec<Stmt>,
}

/// A statement.
#[derive(Debug)]
pub enum Stmt {
    /// A `let` binding.
    Local(Local),
    /// A declaration nested in a block.
    Item(Item),
    /// An expression without a semicolon.
    Expr(Expr),
    /// An expression followed by a semicolon.
    Semi(Expr),
}

#[derive(Debug)]
pub struct Local {
    pub attrs: Vec<Attribute>,
    pub pats: Punctuated<Pat, Or>,
    pub ty: Option<Type>,
    pub init: Option<Expr>,
}

/// Who may name an item.
#[derive(Clone, Copy, Debug, PartialEq, Eq)]
pub enum Visibility {
    Public,
    Inherited,
    /// `crate`, `pub(..)` or any other visibility.
    Other,
}

/// The generic parameters of a declaration with their `where` clause.
#[derive(Debug)]
pub struct Generics {
    pub params: Punctuated<GenericParam, Comma>,
    pub where_clause: Option<WhereClause>,
}

#[derive(Debug)]
pub enum GenericParam {
    Type(TypeParam),
    /// A lifetime, a constant or any other parameter.
    Other,
}

#[derive(Debug)]
pub struct TypeParam {
    pub attrs: Vec<Attribute>,
    pub ident: String,
    /// Whether a colon follows the name.
    pub colon_token: bool,
    pub bounds: Punctuated<TypeParamBound, Add>,
    /// Whether `=` follows the bounds.
    pub eq_token: bool,
    pub default: Option<Type>,
}

#[derive(Debug)]
pub enum TypeParamBound {
    Trait(TraitBound),
    Lifetime(Lifetime),
}

#[derive(Debug)]
pub struct TraitBound {
    /// Whether the bound stands in parentheses.
    pub paren_token: bool,
    /// Whether the bound is relaxed with `?`.
    pub maybe: bool,
    /// Whether the bound binds lifetimes with `for<..>`.
    pub lifetimes: bool,
    pub path: Path,
}

#[derive(Debug)]
pub struct WhereClause {
    pub predicates: Punctuated<WherePredicate, Comma>,
}

#[derive(Debug)]
pub enum WherePredicate {
    Type(PredicateType),
    /// A predicate on a lifetime or any other predicate.
    Other,
}

#[derive(Debug)]
pub struct PredicateType {
    /// Whether the predicate binds lifetimes with `for<..>`.
    pub lifetimes: bool,
    pub bounded_ty: Type,
    pub bounds: Punctuated<TypeParamBound, Add>,
}

/// A declaration.
#[derive(Debug)]
pub enum Item {
    Use(ItemUse),
    Mod(ItemMod),
    Struct(ItemStruct),
    Impl(ItemImpl),
    /// A declaration of any other kind.
    Other,
}

#[derive(Debug)]
pub struct ItemUse {
    pub attrs: Vec<Attribute>,
    pub vis: Visibility,
    pub leading_colon: bool,
    pub tree: UseTree,
}

/// What a `use` declaration imports.
#[derive(Debug)]
pub enum UseTree {
    /// A path prefix: `name::tree`.
    Path(UsePath),
    /// A single name.
    Name(String),
    /// `*`.
    Glob,
    /// A renamed name, a group in braces or any other tree.
    Other,
}

#[derive(Debug)]
pub struct UsePath {
    pub ident: String,
    pub tree: Box<UseTree>,
}

#[derive(Debug)]
pub struct ItemMod {
    pub attrs: Vec<Attribute>,
    pub vis: Visibility,
    pub ident: String,
    /// The declarations of the module, where it has a body.
    pub content: Option<Vec<Item>>,
}

#[derive(Debug)]
pub struct ItemStruct {
    pub attrs: Vec<Attribute>,
    pub vis: Visibility,
    pub ident: String,
    pub generics: Generics,
    pub fields: Fields,
    /// Whether a semicolon ends the declaration.
    pub semi_token: bool,
}

/// The fields of a struct.
#[derive(Debug)]
pub enum Fields {
    /// Named fields in braces.
    Named(FieldsNamed),
    /// Fields in parentheses, without names.
    Unnamed,
    /// No fields.
    Unit,
}

#[derive(Debug)]
pub struct FieldsNamed {
    pub named: Punctuated<Field, Comma>,
}

#[derive(Debug)]
pub struct Field {
    pub attrs: Vec<Attribute>,
    pub vis: Visibility,
    pub ident: Option<String>,
    /// Whether a colon follows the name.
    pub colon_token: bool,
    pub ty: Type,
}

#[derive(Debug)]
pub struct ItemImpl {
    pub attrs: Vec<Attribute>,
    pub defaultness: bool,
    pub unsafety: bool,
    pub generics: Generics,
    /// Whether the block implements a trait.
    pub trait_: bool,
    pub self_ty: Box<Type>,
    pub items: Vec<ImplItem>,
}

/// An item of an `impl` block.
#[derive(Debug)]
pub enum ImplItem {
    Method(ImplItemMethod),
    /// An item of any other kind.
    Other,
}

#[derive(Debug)]
pub struct ImplItemMethod {
    pub attrs: Vec<Attribute>,
    pub vis: Visibility,
    pub defaultness: bool,
    pub sig: MethodSig,
    pub block: Block,
}

#[derive(Debug)]
pub struct MethodSig {
    pub constness: bool,
    pub unsafety: bool,
    pub asyncness: bool,
    /// Whether the method names a calling convention.
    pub abi: bool,
    pub ident: String,
    pub decl: FnDecl,
}

/// The parameters and the result of a function.
#[derive(Debug)]
pub struct FnDecl {
    pub generics: Generics,
    pub inputs: Punctuated<FnArg, Comma>,
    /// Whether `...` follows the parameters.
    pub variadic: bool,
    pub output: ReturnType,
}

/// A parameter of a function.
#[derive(Debug)]
pub enum FnArg {
    /// `&self` or `&mut self`.
    SelfRef(ArgSelfRef),
    /// `self` or `mut self`.
    SelfValue(ArgSelf),
    /// A pattern with its type.
    Captured(ArgCaptured),
    /// A pattern whose type is left out.
    Inferred(Pat),
    /// A type without a pattern.
    Ignored(Type),
}

#[derive(Debug)]
pub struct ArgSelfRef {
    pub lifetime: Option<Lifetime>,
    pub mutability: bool,
}

#[derive(Debug)]
pub struct ArgSelf {
    pub mutability: bool,
}

#[derive(Debug)]
pub struct ArgCaptured {
    pub pat: Pat,
    pub ty: Type,
}

#[derive(Debug)]
pub enum ReturnType {
    /// No result type is written.
    Default,
    Type(Box<Type>),
}

/// A whole source file.
#[derive(Debug)]
pub struct File {
    /// Whether the file begins with a `#!` line.
    pub shebang: bool,
    pub attrs: Vec<Attribute>,
    pub items: Vec<Item>,
}

} // verus!
