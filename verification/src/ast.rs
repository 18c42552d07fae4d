//! The syntax tree that the generator walks: a closed set of tagged variants,
//! one per node kind the translation understands, holding plain values only.
//! The tree is supplied by the front-end parser and is never mutated here;
//! node kinds outside this set arrive as the `Other` variants and are handled
//! by the generator's explicit fallback rules.
use vstd::prelude::*;

verus! {

/// A literal expression. A numeric literal carries its numeral as text, so
/// that the emitted code preserves the value exactly as the source wrote it.
pub enum Lit {
    Num(String),
    Str(String),
    Other,
}

/// Binary operators; only the four arithmetic operators are mapped.
pub enum BinOp {
    Add,
    Sub,
    Mul,
    Div,
    Other,
}

/// The property part of a member access: a plain name, or anything else
/// (a computed, index-style access), which the generator marks as unsupported.
pub enum MemberProp {
    Named(String),
    Computed,
}

/// A member access `obj.prop`.
pub struct MemberExpr {
    pub obj: Box<Expr>,
    pub prop: MemberProp,
}

/// A binary expression `left op right`.
pub struct BinExpr {
    pub op: BinOp,
    pub left: Box<Expr>,
    pub right: Box<Expr>,
}

/// What a call invokes: an ordinary expression, or a callee form the
/// generator does not model (`super`, dynamic import).
pub enum Callee {
    Expr(Box<Expr>),
    Other,
}

/// A call expression `callee(args)`.
pub struct CallExpr {
    pub callee: Callee,
    pub args: Vec<Expr>,
}

/// An expression node.
pub enum Expr {
    This,
    Ident(String),
    Lit(Lit),
    Bin(BinExpr),
    Member(MemberExpr),
    Await(Box<Expr>),
    Call(CallExpr),
    Other,
}

/// A statement node. Declarations other than functions, and statement kinds
/// not listed, arrive as `Decl(..)` / `Other` and are skipped by statement
/// conversion.
pub enum Stmt {
    Return(Option<Expr>),
    Expr(Expr),
    Decl(Decl),
    Other,
}

/// A declaration that can stand at statement or module level.
pub enum Decl {
    Fn(FnDecl),
    Other,
}

/// A source type annotation: a bare name, a name applied to type arguments
/// (`Promise<T>`, `Array<T>`), or a form the mapper does not model.
pub enum TsType {
    Named(String),
    Applied(String, Vec<TsType>),
    Other,
}

/// A binding pattern in a parameter list. Only simple name bindings carry a
/// name and an optional annotation; destructuring patterns are skipped.
pub enum Pat {
    Ident(String, Option<TsType>),
    Other,
}

/// A function declaration.
pub struct FnDecl {
    pub name: String,
    pub is_async: bool,
    pub params: Vec<Pat>,
    pub return_type: Option<TsType>,
    pub body: Option<Vec<Stmt>>,
}

/// One specifier of an import declaration. A named specifier may rename:
/// `imported` is the source-module name when it differs from the local one.
pub enum ImportSpecifier {
    Named { local: String, imported: Option<String> },
    DefaultImport { local: String },
    Namespace { local: String },
}

/// An import declaration: a source path and its specifiers.
pub struct ImportDecl {
    pub src: String,
    pub specifiers: Vec<ImportSpecifier>,
}

/// A module-level declaration.
pub enum ModuleDecl {
    ExportDecl(Decl),
    Import(ImportDecl),
    Other,
}

/// One item of a module body.
pub enum ModuleItem {
    ModuleDecl(ModuleDecl),
    Stmt(Stmt),
}

/// A parsed program: a module (with import/export items) or a plain script.
pub enum Program {
    Module(Vec<ModuleItem>),
    Script(Vec<Stmt>),
}

} // verus!
