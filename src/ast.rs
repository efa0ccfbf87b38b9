//! The output tree: every node carries the positional envelope [`BaseNode`]
//! beside its own fields.
use vstd::prelude::*;
use crate::json::Json;
use crate::ops::{BinaryOp, LogicalOp, UnaryOp, UpdateOp, VariableDeclarationKind, SourceType, ObjectKind};
use crate::decl::EnumDeclaration;


verus! {

/// A line (from 1) and column (from 0) in the source text.
#[derive(Debug, Clone, Copy, PartialEq, Eq, Structural)]
pub struct LineCol {
    pub line: usize,
    pub column: usize,
}

/// The line and column at which a node starts and ends.
#[derive(Debug, Clone, Copy, PartialEq, Eq, Structural)]
pub struct Loc {
    pub start: LineCol,
    pub end: LineCol,
}

/// What a comment of either shape carries.
#[derive(Debug)]
pub struct BaseComment {
    pub value: String,
    pub start: usize,
    pub end: usize,
    pub loc: Loc,
}

/// A `/* block */` or `// line` comment.
#[derive(Debug)]
pub enum Comment {
    Block(BaseComment),
    Line(BaseComment),
}

/// The envelope that every node carries: byte offsets, line and column,
/// the attached comments, and an open map for further data.
#[derive(Debug)]
pub struct BaseNode {
    pub leading_comments: Vec<Comment>,
    pub inner_comments: Vec<Comment>,
    pub trailing_comments: Vec<Comment>,
    pub start: Option<usize>,
    pub end: Option<usize>,
    pub loc: Option<Loc>,
    pub extra: Option<Vec<(String, Json)>>,
}

#[derive(Debug)]
pub struct Identifier {
    pub base: BaseNode,
    pub name: String,
    pub optional: Option<bool>,
}

#[derive(Debug)]
pub struct StringLiteral {
    pub base: BaseNode,
    pub value: String,
}

/// A number literal; `value` is the IEEE-754 binary64 bit pattern.
#[derive(Debug)]
pub struct NumericLiteral {
    pub base: BaseNode,
    pub value: u64,
}

#[derive(Debug)]
pub struct NullLiteral {
    pub base: BaseNode,
}

#[derive(Debug)]
pub struct BooleanLiteral {
    pub base: BaseNode,
    pub value: bool,
}

#[derive(Debug)]
pub struct RegExpLiteral {
    pub base: BaseNode,
    pub pattern: String,
    pub flags: String,
}

#[derive(Debug)]
pub enum Literal {
    StringLiteral(StringLiteral),
    NumericLiteral(NumericLiteral),
    NullLiteral(NullLiteral),
    BooleanLiteral(BooleanLiteral),
    RegExpLiteral(RegExpLiteral),
}

#[derive(Debug)]
pub struct ThisExpression {
    pub base: BaseNode,
}

#[derive(Debug)]
pub enum ArrayEl {
    Expression(Expression),
}

#[derive(Debug)]
pub struct ArrayExpression {
    pub base: BaseNode,
    pub elements: Vec<Option<ArrayEl>>,
}

#[derive(Debug)]
pub struct UnaryExpression {
    pub base: BaseNode,
    pub operator: UnaryOp,
    pub argument: Box<Expression>,
    pub prefix: bool,
}

#[derive(Debug)]
pub struct UpdateExpression {
    pub base: BaseNode,
    pub operator: UpdateOp,
    pub argument: Box<Expression>,
    pub prefix: bool,
}

#[derive(Debug)]
pub enum BindaryLeft {
    Expression(Expression),
}

#[derive(Debug)]
pub struct BinaryExpression {
    pub base: BaseNode,
    pub operator: BinaryOp,
    pub left: Box<BindaryLeft>,
    pub right: Box<Expression>,
}

#[derive(Debug)]
pub struct LogicalExpression {
    pub base: BaseNode,
    pub operator: LogicalOp,
    pub left: Box<Expression>,
    pub right: Box<Expression>,
}

/// An expression with a binary operator of either family.
#[derive(Debug)]
pub enum Binary {
    BinaryExpression(BinaryExpression),
    LogicalExpression(LogicalExpression),
}

#[derive(Debug)]
pub struct AssignmentExpression {
    pub base: BaseNode,
    pub operator: String,
    pub left: Box<LVal>,
    pub right: Box<Expression>,
}

#[derive(Debug)]
pub struct ConditionalExpression {
    pub base: BaseNode,
    pub test: Box<Expression>,
    pub consequent: Box<Expression>,
    pub alternate: Box<Expression>,
}

#[derive(Debug)]
pub enum Callee {
    Expression(Expression),
}

#[derive(Debug)]
pub enum Arg {
    Expression(Expression),
}

#[derive(Debug)]
pub struct CallExpression {
    pub base: BaseNode,
    pub callee: Box<Callee>,
    pub arguments: Vec<Arg>,
    pub optional: Option<bool>,
}

#[derive(Debug)]
pub struct NewExpression {
    pub base: BaseNode,
    pub callee: Box<Callee>,
    pub arguments: Vec<Arg>,
    pub optional: Option<bool>,
}

#[derive(Debug)]
pub enum MemberProp {
    Expression(Expression),
    Identifier(Identifier),
}

#[derive(Debug)]
pub struct MemberExpression {
    pub base: BaseNode,
    pub object: Box<Expression>,
    pub property: Box<MemberProp>,
    pub computed: bool,
    pub optional: Option<bool>,
}

#[derive(Debug)]
pub struct SequenceExpression {
    pub base: BaseNode,
    pub expressions: Vec<Expression>,
}

#[derive(Debug)]
pub struct ParenthesizedExpression {
    pub base: BaseNode,
    pub expression: Box<Expression>,
}

#[derive(Debug)]
pub struct FunctionExpression {
    pub base: BaseNode,
    pub id: Option<Identifier>,
    pub params: Vec<Param>,
    pub body: BlockStatement,
    pub generator: Option<bool>,
    pub is_async: Option<bool>,
}

/// The key of an object member.
#[derive(Debug)]
pub enum ObjectKey {
    Expression(Expression),
    Identifier(Identifier),
    StringLiteral(StringLiteral),
    NumericLiteral(NumericLiteral),
}

#[derive(Debug)]
pub enum ObjectPropertyVal {
    Expression(Expression),
    PatternLike(PatternLike),
}

#[derive(Debug)]
pub struct ObjectProperty {
    pub base: BaseNode,
    pub key: ObjectKey,
    pub value: ObjectPropertyVal,
    pub computed: bool,
    pub shorthand: bool,
}

#[derive(Debug)]
pub struct ObjectMethod {
    pub base: BaseNode,
    pub kind: ObjectKind,
    pub key: ObjectKey,
    pub params: Vec<Param>,
    pub body: BlockStatement,
    pub computed: bool,
    pub generator: Option<bool>,
    pub is_async: Option<bool>,
}

#[derive(Debug)]
pub enum ObjectExpressionProp {
    ObjectMethod(ObjectMethod),
    ObjectProperty(ObjectProperty),
}

#[derive(Debug)]
pub struct ObjectExpression {
    pub base: BaseNode,
    pub properties: Vec<ObjectExpressionProp>,
}

#[derive(Debug)]
pub enum ArrowFunctionBody {
    BlockStatement(BlockStatement),
    Expression(Box<Expression>),
}

#[derive(Debug)]
pub struct ArrowFunctionExpression {
    pub base: BaseNode,
    pub params: Vec<Param>,
    pub body: ArrowFunctionBody,
    pub is_async: bool,
    pub expression: bool,
    pub generator: bool,
}

#[derive(Debug)]
pub enum Expression {
    Identifier(Identifier),
    Literal(Literal),
    ThisExpression(ThisExpression),
    ArrayExpression(ArrayExpression),
    ObjectExpression(ObjectExpression),
    FunctionExpression(FunctionExpression),
    ArrowFunctionExpression(ArrowFunctionExpression),
    UnaryExpression(UnaryExpression),
    UpdateExpression(UpdateExpression),
    Binary(Binary),
    AssignmentExpression(AssignmentExpression),
    ConditionalExpression(ConditionalExpression),
    CallExpression(CallExpression),
    NewExpression(NewExpression),
    MemberExpression(MemberExpression),
    SequenceExpression(SequenceExpression),
    ParenthesizedExpression(ParenthesizedExpression),
}

#[derive(Debug)]
pub struct RestElement {
    pub base: BaseNode,
    pub argument: Box<LVal>,
}

/// What may stand where a value is bound or assigned.
#[derive(Debug)]
pub enum LVal {
    Identifier(Identifier),
    MemberExpression(MemberExpression),
    RestElement(RestElement),
}

/// What may stand where a pattern element is expected.
#[derive(Debug)]
pub enum PatternLike {
    Identifier(Identifier),
    RestElement(RestElement),
}

#[derive(Debug)]
pub enum Param {
    Identifier(Identifier),
    RestElement(RestElement),
}

} // verus!

verus! {

#[derive(Debug)]
pub struct DirectiveLiteral {
    pub base: BaseNode,
    pub value: String,
}

#[derive(Debug)]
pub struct Directive {
    pub base: BaseNode,
    pub value: DirectiveLiteral,
}

#[derive(Debug)]
pub struct ExpressionStatement {
    pub base: BaseNode,
    pub expression: Expression,
}

#[derive(Debug)]
pub struct BlockStatement {
    pub base: BaseNode,
    pub body: Vec<Statement>,
    pub directives: Vec<Directive>,
}

#[derive(Debug)]
pub struct EmptyStatement {
    pub base: BaseNode,
}

#[derive(Debug)]
pub struct DebuggerStatement {
    pub base: BaseNode,
}

#[derive(Debug)]
pub struct ReturnStatement {
    pub base: BaseNode,
    pub argument: Option<Expression>,
}

#[derive(Debug)]
pub struct IfStatement {
    pub base: BaseNode,
    pub test: Expression,
    pub consequent: Box<Statement>,
    pub alternate: Option<Box<Statement>>,
}

#[derive(Debug)]
pub struct WhileStatement {
    pub base: BaseNode,
    pub test: Expression,
    pub body: Box<Statement>,
}

#[derive(Debug)]
pub struct DoWhileStatement {
    pub base: BaseNode,
    pub test: Expression,
    pub body: Box<Statement>,
}

#[derive(Debug)]
pub struct ThrowStatement {
    pub base: BaseNode,
    pub argument: Expression,
}

#[derive(Debug)]
pub struct SwitchCase {
    pub base: BaseNode,
    pub test: Option<Expression>,
    pub consequent: Vec<Statement>,
}

/// A switch statement; the wire schema spells its subject `descriminant`.
#[derive(Debug)]
pub struct SwitchStatement {
    pub base: BaseNode,
    pub descriminant: Expression,
    pub cases: Vec<SwitchCase>,
}

#[derive(Debug)]
pub struct BreakStatement {
    pub base: BaseNode,
    pub label: Option<Identifier>,
}

#[derive(Debug)]
pub struct ContinueStatement {
    pub base: BaseNode,
    pub label: Option<Identifier>,
}

#[derive(Debug)]
pub struct LabeledStatement {
    pub base: BaseNode,
    pub label: Identifier,
    pub body: Box<Statement>,
}

#[derive(Debug)]
pub enum ForInit {
    VariableDeclaration(VariableDeclaration),
    Expression(Expression),
}

#[derive(Debug)]
pub struct ForStatement {
    pub base: BaseNode,
    pub init: Option<ForInit>,
    pub test: Option<Expression>,
    pub update: Option<Expression>,
    pub body: Box<Statement>,
}

#[derive(Debug)]
pub enum ForInLeft {
    VariableDeclaration(VariableDeclaration),
    LVal(LVal),
}

#[derive(Debug)]
pub struct ForInStatement {
    pub base: BaseNode,
    pub left: ForInLeft,
    pub right: Expression,
    pub body: Box<Statement>,
}

#[derive(Debug)]
pub enum CatchParam {
    Identifier(Identifier),
}

#[derive(Debug)]
pub struct CatchClause {
    pub base: BaseNode,
    pub param: Option<CatchParam>,
    pub body: BlockStatement,
}

#[derive(Debug)]
pub struct TryStatement {
    pub base: BaseNode,
    pub block: BlockStatement,
    pub handler: Option<CatchClause>,
    pub finalizer: Option<BlockStatement>,
}

#[derive(Debug)]
pub enum Statement {
    ExpressionStatement(ExpressionStatement),
    BlockStatement(BlockStatement),
    EmptyStatement(EmptyStatement),
    DebuggerStatement(DebuggerStatement),
    ReturnStatement(ReturnStatement),
    IfStatement(IfStatement),
    WhileStatement(WhileStatement),
    DoWhileStatement(DoWhileStatement),
    ThrowStatement(ThrowStatement),
    SwitchStatement(SwitchStatement),
    BreakStatement(BreakStatement),
    ContinueStatement(ContinueStatement),
    LabeledStatement(LabeledStatement),
    ForStatement(ForStatement),
    ForInStatement(ForInStatement),
    TryStatement(TryStatement),
    VariableDeclaration(VariableDeclaration),
    FunctionDeclaration(FunctionDeclaration),
    EnumDeclaration(EnumDeclaration),
}

#[derive(Debug)]
pub struct VariableDeclarator {
    pub base: BaseNode,
    pub id: LVal,
    pub init: Option<Box<Expression>>,
    pub definite: Option<bool>,
}

#[derive(Debug)]
pub struct VariableDeclaration {
    pub base: BaseNode,
    pub kind: VariableDeclarationKind,
    pub declarations: Vec<VariableDeclarator>,
    pub declare: Option<bool>,
}

#[derive(Debug)]
pub struct FunctionDeclaration {
    pub base: BaseNode,
    pub id: Option<Identifier>,
    pub params: Vec<Param>,
    pub body: BlockStatement,
    pub generator: Option<bool>,
    pub is_async: Option<bool>,
}

#[derive(Debug)]
pub struct ImportSpecifier {
    pub base: BaseNode,
    pub local: Identifier,
    pub imported: Identifier,
}

#[derive(Debug)]
pub struct ImportDefaultSpecifier {
    pub base: BaseNode,
    pub local: Identifier,
}

#[derive(Debug)]
pub struct ImportNamespaceSpecifier {
    pub base: BaseNode,
    pub local: Identifier,
}

#[derive(Debug)]
pub enum ModuleSpecifier {
    ImportSpecifier(ImportSpecifier),
    ImportDefaultSpecifier(ImportDefaultSpecifier),
    ImportNamespaceSpecifier(ImportNamespaceSpecifier),
}

#[derive(Debug)]
pub struct ImportDeclaration {
    pub base: BaseNode,
    pub specifiers: Vec<ModuleSpecifier>,
    pub source: StringLiteral,
}

#[derive(Debug)]
pub enum ModuleDeclaration {
    ImportDeclaration(ImportDeclaration),
}

/// One item of a program body: a module declaration or a plain statement.
#[derive(Debug)]
pub enum ModuleItemOutput {
    ModuleDecl(ModuleDeclaration),
    Stmt(Statement),
}

#[derive(Debug)]
pub struct InterpreterDirective {
    pub base: BaseNode,
    pub value: String,
}

#[derive(Debug)]
pub struct Program {
    pub base: BaseNode,
    pub body: Vec<ModuleItemOutput>,
    pub directives: Vec<Directive>,
    pub source_type: SourceType,
    pub interpreter: Option<InterpreterDirective>,
    pub source_file: String,
}

} // verus!

verus! {

/// Builds a declaration from a function expression, field for field.
impl From<FunctionExpression> for FunctionDeclaration {
    fn from(expr: FunctionExpression) -> (r: FunctionDeclaration) {
        FunctionDeclaration {
            base: expr.base,
            id: expr.id,
            params: expr.params,
            body: expr.body,
            generator: expr.generator,
            is_async: expr.is_async,
        }
    }
}

impl vstd::std_specs::convert::FromSpecImpl<FunctionExpression> for FunctionDeclaration {
    open spec fn obeys_from_spec() -> bool {
        true
    }

    open spec fn from_spec(expr: FunctionExpression) -> FunctionDeclaration {
        FunctionDeclaration {
            base: expr.base,
            id: expr.id,
            params: expr.params,
            body: expr.body,
            generator: expr.generator,
            is_async: expr.is_async,
        }
    }
}

} // verus!
