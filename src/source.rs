//! The parser's syntax tree, as plain values: byte spans into the source
//! text, names and literal values, and the tree's nesting.
use vstd::prelude::*;

verus! {

/// A half-open range `[lo, hi)` of byte offsets into the source text.
#[derive(Debug, Clone, Copy, PartialEq, Eq, Structural)]
pub struct Span {
    pub lo: usize,
    pub hi: usize,
}

impl Span {
    /// Lies within a text of `len` bytes, with `lo <= hi`.
    pub open spec fn within(self, len: nat) -> bool {
        self.lo <= self.hi && self.hi <= len
    }
}

#[derive(Debug, Clone, Copy, PartialEq, Eq, Structural)]
pub enum CommentKind {
    Block,
    Line,
}

/// A comment as the parser found it; `text` excludes the delimiters.
#[derive(Debug)]
pub struct SourceComment {
    pub kind: CommentKind,
    pub span: Span,
    pub text: String,
}

#[derive(Debug)]
pub struct Ident {
    pub span: Span,
    pub sym: String,
    pub optional: bool,
}

impl Ident {
    pub fn duplicate(&self) -> (r: Ident)
        ensures
            r == *self,
    {
        Ident { span: self.span, sym: self.sym.clone(), optional: self.optional }
    }
}

#[derive(Debug)]
pub struct Str {
    pub span: Span,
    pub value: String,
}

#[derive(Debug)]
pub struct Bool {
    pub span: Span,
    pub value: bool,
}

#[derive(Debug)]
pub struct Null {
    pub span: Span,
}

/// A number literal; `value` is the IEEE-754 binary64 bit pattern.
#[derive(Debug)]
pub struct Number {
    pub span: Span,
    pub value: u64,
}

#[derive(Debug)]
pub struct Regex {
    pub span: Span,
    pub exp: String,
    pub flags: String,
}

#[derive(Debug)]
pub enum Lit {
    Str(Str),
    Bool(Bool),
    Null(Null),
    Num(Number),
    Regex(Regex),
}

#[derive(Debug, Clone, Copy, PartialEq, Eq, Structural)]
pub enum BinaryOp {
    EqEq,
    NotEq,
    EqEqEq,
    NotEqEq,
    Lt,
    LtEq,
    Gt,
    GtEq,
    LShift,
    RShift,
    ZeroFillRShift,
    Add,
    Sub,
    Mul,
    Div,
    Mod,
    BitOr,
    BitXor,
    BitAnd,
    LogicalOr,
    LogicalAnd,
    In,
    InstanceOf,
    Exp,
    NullishCoalescing,
}

#[derive(Debug, Clone, Copy, PartialEq, Eq, Structural)]
pub enum UnaryOp {
    Minus,
    Plus,
    Bang,
    Tilde,
    TypeOf,
    Void,
    Delete,
}

#[derive(Debug, Clone, Copy, PartialEq, Eq, Structural)]
pub enum UpdateOp {
    PlusPlus,
    MinusMinus,
}

#[derive(Debug, Clone, Copy, PartialEq, Eq, Structural)]
pub enum AssignOp {
    Assign,
    AddAssign,
    SubAssign,
    MulAssign,
    DivAssign,
    ModAssign,
    LShiftAssign,
    RShiftAssign,
    ZeroFillRShiftAssign,
    BitOrAssign,
    BitXorAssign,
    BitAndAssign,
    ExpAssign,
    AndAssign,
    OrAssign,
    NullishAssign,
}

#[derive(Debug)]
pub struct ThisExpr {
    pub span: Span,
}

#[derive(Debug)]
pub struct ArrayLit {
    pub span: Span,
    pub elems: Vec<Option<Expr>>,
}

/// The name of an object member.
#[derive(Debug)]
pub enum PropName {
    Ident(Ident),
    Str(Str),
    Num(Number),
    Computed(ComputedPropName),
}

#[derive(Debug)]
pub struct KeyValueProp {
    pub span: Span,
    pub key: PropName,
    pub value: Box<Expr>,
}

#[derive(Debug, Clone, Copy, PartialEq, Eq, Structural)]
pub enum MethodKind {
    Method,
    Getter,
    Setter,
}

/// A method, getter or setter; its function spans the whole member.
#[derive(Debug)]
pub struct MethodProp {
    pub kind: MethodKind,
    pub key: PropName,
    pub function: Function,
}

#[derive(Debug)]
pub enum Prop {
    KeyValue(KeyValueProp),
    Shorthand(Ident),
    Method(MethodProp),
}

#[derive(Debug)]
pub struct ObjectLit {
    pub span: Span,
    pub props: Vec<Prop>,
}

#[derive(Debug)]
pub struct FnExpr {
    pub ident: Option<Ident>,
    pub function: Function,
}

#[derive(Debug)]
pub enum BlockStmtOrExpr {
    BlockStmt(BlockStmt),
    Expr(Box<Expr>),
}

#[derive(Debug)]
pub struct ArrowExpr {
    pub span: Span,
    pub params: Vec<ParamPat>,
    pub body: BlockStmtOrExpr,
    pub is_async: bool,
    pub is_generator: bool,
}

#[derive(Debug)]
pub struct UnaryExpr {
    pub span: Span,
    pub op: UnaryOp,
    pub arg: Box<Expr>,
}

#[derive(Debug)]
pub struct UpdateExpr {
    pub span: Span,
    pub op: UpdateOp,
    pub prefix: bool,
    pub arg: Box<Expr>,
}

#[derive(Debug)]
pub struct BinExpr {
    pub span: Span,
    pub op: BinaryOp,
    pub left: Box<Expr>,
    pub right: Box<Expr>,
}

#[derive(Debug)]
pub struct AssignExpr {
    pub span: Span,
    pub op: AssignOp,
    pub left: Pat,
    pub right: Box<Expr>,
}

#[derive(Debug)]
pub struct ComputedPropName {
    pub span: Span,
    pub expr: Box<Expr>,
}

#[derive(Debug)]
pub enum MemberProp {
    Ident(Ident),
    Computed(ComputedPropName),
}

#[derive(Debug)]
pub struct MemberExpr {
    pub span: Span,
    pub obj: Box<Expr>,
    pub prop: MemberProp,
}

#[derive(Debug)]
pub struct CondExpr {
    pub span: Span,
    pub test: Box<Expr>,
    pub cons: Box<Expr>,
    pub alt: Box<Expr>,
}

#[derive(Debug)]
pub struct CallExpr {
    pub span: Span,
    pub callee: Box<Expr>,
    pub args: Vec<Expr>,
}

#[derive(Debug)]
pub struct NewExpr {
    pub span: Span,
    pub callee: Box<Expr>,
    pub args: Option<Vec<Expr>>,
}

#[derive(Debug)]
pub struct SeqExpr {
    pub span: Span,
    pub exprs: Vec<Expr>,
}

#[derive(Debug)]
pub struct ParenExpr {
    pub span: Span,
    pub expr: Box<Expr>,
}

#[derive(Debug)]
pub enum Expr {
    This(ThisExpr),
    Array(ArrayLit),
    Object(ObjectLit),
    Fn(FnExpr),
    Arrow(ArrowExpr),
    Unary(UnaryExpr),
    Update(UpdateExpr),
    Bin(BinExpr),
    Assign(AssignExpr),
    Member(MemberExpr),
    Cond(CondExpr),
    Call(CallExpr),
    New(NewExpr),
    Sequence(SeqExpr),
    Ident(Ident),
    Lit(Lit),
    Paren(ParenExpr),
}

#[derive(Debug)]
pub struct RestPat {
    pub span: Span,
    pub arg: Box<Pat>,
}

/// A binding or assignment target.
#[derive(Debug)]
pub enum Pat {
    Ident(Ident),
    Member(MemberExpr),
    Rest(RestPat),
}

/// A function parameter.
#[derive(Debug)]
pub enum ParamPat {
    Ident(Ident),
    Rest(RestPat),
}

#[derive(Debug)]
pub struct Function {
    pub span: Span,
    pub params: Vec<ParamPat>,
    pub body: BlockStmt,
    pub is_generator: bool,
    pub is_async: bool,
}

#[derive(Debug)]
pub struct ExprStmt {
    pub span: Span,
    pub expr: Box<Expr>,
}

#[derive(Debug)]
pub struct BlockStmt {
    pub span: Span,
    pub stmts: Vec<Stmt>,
}

#[derive(Debug)]
pub struct EmptyStmt {
    pub span: Span,
}

#[derive(Debug)]
pub struct DebuggerStmt {
    pub span: Span,
}

#[derive(Debug)]
pub struct ReturnStmt {
    pub span: Span,
    pub arg: Option<Box<Expr>>,
}

#[derive(Debug)]
pub struct IfStmt {
    pub span: Span,
    pub test: Box<Expr>,
    pub cons: Box<Stmt>,
    pub alt: Option<Box<Stmt>>,
}

#[derive(Debug)]
pub struct WhileStmt {
    pub span: Span,
    pub test: Box<Expr>,
    pub body: Box<Stmt>,
}

#[derive(Debug)]
pub struct DoWhileStmt {
    pub span: Span,
    pub test: Box<Expr>,
    pub body: Box<Stmt>,
}

#[derive(Debug)]
pub struct ThrowStmt {
    pub span: Span,
    pub arg: Box<Expr>,
}

#[derive(Debug)]
pub struct SwitchCase {
    pub span: Span,
    pub test: Option<Box<Expr>>,
    pub cons: Vec<Stmt>,
}

#[derive(Debug)]
pub struct SwitchStmt {
    pub span: Span,
    pub discriminant: Box<Expr>,
    pub cases: Vec<SwitchCase>,
}

#[derive(Debug)]
pub struct BreakStmt {
    pub span: Span,
    pub label: Option<Ident>,
}

#[derive(Debug)]
pub struct ContinueStmt {
    pub span: Span,
    pub label: Option<Ident>,
}

#[derive(Debug)]
pub struct LabeledStmt {
    pub span: Span,
    pub label: Ident,
    pub body: Box<Stmt>,
}

#[derive(Debug)]
pub enum VarDeclOrExpr {
    VarDecl(VarDecl),
    Expr(Box<Expr>),
}

#[derive(Debug)]
pub struct ForStmt {
    pub span: Span,
    pub init: Option<VarDeclOrExpr>,
    pub test: Option<Box<Expr>>,
    pub update: Option<Box<Expr>>,
    pub body: Box<Stmt>,
}

#[derive(Debug)]
pub enum ForHead {
    VarDecl(VarDecl),
    Pat(Pat),
}

#[derive(Debug)]
pub struct ForInStmt {
    pub span: Span,
    pub left: ForHead,
    pub right: Box<Expr>,
    pub body: Box<Stmt>,
}

#[derive(Debug)]
pub struct CatchClause {
    pub span: Span,
    pub param: Option<Ident>,
    pub body: BlockStmt,
}

#[derive(Debug)]
pub struct TryStmt {
    pub span: Span,
    pub block: BlockStmt,
    pub handler: Option<CatchClause>,
    pub finalizer: Option<BlockStmt>,
}

#[derive(Debug, Clone, Copy, PartialEq, Eq, Structural)]
pub enum VarDeclKind {
    Var,
    Let,
    Const,
}

#[derive(Debug)]
pub struct VarDeclarator {
    pub span: Span,
    pub name: Pat,
    pub init: Option<Box<Expr>>,
    pub definite: bool,
}

#[derive(Debug)]
pub struct VarDecl {
    pub span: Span,
    pub kind: VarDeclKind,
    pub declare: bool,
    pub decls: Vec<VarDeclarator>,
}

#[derive(Debug)]
pub struct FnDecl {
    pub ident: Ident,
    pub declare: bool,
    pub function: Function,
}

/// The value type that an enumeration names explicitly (`enum E of string`).
#[derive(Debug, Clone, Copy, PartialEq, Eq, Structural)]
pub enum EnumKind {
    Boolean,
    Number,
    String,
    Symbol,
}

#[derive(Debug)]
pub struct EnumMember {
    pub span: Span,
    pub id: Ident,
    pub init: Option<Lit>,
}

#[derive(Debug)]
pub struct EnumDecl {
    pub span: Span,
    pub id: Ident,
    pub explicit_type: Option<EnumKind>,
    pub has_unknown_members: bool,
    pub members: Vec<EnumMember>,
}

#[derive(Debug)]
pub enum Decl {
    Var(VarDecl),
    Fn(FnDecl),
    Enum(EnumDecl),
}

#[derive(Debug)]
pub enum Stmt {
    Expr(ExprStmt),
    Block(BlockStmt),
    Empty(EmptyStmt),
    Debugger(DebuggerStmt),
    Return(ReturnStmt),
    If(IfStmt),
    While(WhileStmt),
    DoWhile(DoWhileStmt),
    Throw(ThrowStmt),
    Switch(SwitchStmt),
    Break(BreakStmt),
    Continue(ContinueStmt),
    Labeled(LabeledStmt),
    For(ForStmt),
    ForIn(ForInStmt),
    Try(TryStmt),
    Decl(Decl),
}

#[derive(Debug)]
pub struct ImportNamedSpecifier {
    pub span: Span,
    pub local: Ident,
    pub imported: Option<Ident>,
}

#[derive(Debug)]
pub struct ImportDefaultSpecifier {
    pub span: Span,
    pub local: Ident,
}

#[derive(Debug)]
pub struct ImportStarAsSpecifier {
    pub span: Span,
    pub local: Ident,
}

#[derive(Debug)]
pub enum ImportSpecifier {
    Named(ImportNamedSpecifier),
    Default(ImportDefaultSpecifier),
    Namespace(ImportStarAsSpecifier),
}

#[derive(Debug)]
pub struct ImportDecl {
    pub span: Span,
    pub specifiers: Vec<ImportSpecifier>,
    pub src: Str,
}

#[derive(Debug)]
pub enum ModuleDecl {
    Import(ImportDecl),
}

#[derive(Debug)]
pub enum ModuleItem {
    ModuleDecl(ModuleDecl),
    Stmt(Stmt),
}

#[derive(Debug)]
pub struct Module {
    pub span: Span,
    pub body: Vec<ModuleItem>,
    /// The interpreter line's text after its leading `#!`, where there is one.
    pub shebang: Option<String>,
}

#[derive(Debug)]
pub struct Script {
    pub span: Span,
    pub body: Vec<Stmt>,
    /// The interpreter line's text after its leading `#!`, where there is one.
    pub shebang: Option<String>,
}

#[derive(Debug)]
pub enum Program {
    Module(Module),
    Script(Script),
}

} // verus!
