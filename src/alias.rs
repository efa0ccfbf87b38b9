//! The schema's alias unions: node categories that group kinds sharing a
//! role, each holding one node of a member kind.
use vstd::prelude::*;
use crate::ast::{
    BlockStatement, BooleanLiteral, ConditionalExpression, DoWhileStatement, ExpressionStatement,
    FunctionDeclaration, FunctionExpression, IfStatement, ImportDeclaration,
    NullLiteral, NumericLiteral, ParenthesizedExpression, Program, RegExpLiteral,
    ReturnStatement, StringLiteral, SwitchStatement, ThrowStatement, UnaryExpression,
    VariableDeclaration, WhileStatement, BreakStatement, ContinueStatement, ForStatement,
    ForInStatement, CatchClause, ObjectMethod, ObjectProperty, ArrowFunctionExpression,
};
use crate::decl::EnumDeclaration;

verus! {

#[derive(Debug)]
pub enum Loop {
    DoWhileStatement(DoWhileStatement),
    ForInStatement(ForInStatement),
    ForStatement(ForStatement),
    WhileStatement(WhileStatement),
}

#[derive(Debug)]
pub enum For {
    ForInStatement(ForInStatement),
    ForStatement(ForStatement),
}

#[derive(Debug)]
pub enum ForXStatement {
    ForInStatement(ForInStatement),
}

#[derive(Debug)]
pub enum While {
    DoWhileStatement(DoWhileStatement),
    WhileStatement(WhileStatement),
}

#[derive(Debug)]
pub enum Conditional {
    ConditionalExpression(ConditionalExpression),
    IfStatement(IfStatement),
}

#[derive(Debug)]
pub enum Terminatorless {
    BreakStatement(BreakStatement),
    ContinueStatement(ContinueStatement),
    ReturnStatement(ReturnStatement),
    ThrowStatement(ThrowStatement),
}

#[derive(Debug)]
pub enum CompletionStatement {
    BreakStatement(BreakStatement),
    ContinueStatement(ContinueStatement),
    ReturnStatement(ReturnStatement),
    ThrowStatement(ThrowStatement),
}

#[derive(Debug)]
pub enum ExpressionWrapper {
    ExpressionStatement(ExpressionStatement),
    ParenthesizedExpression(ParenthesizedExpression),
}

#[derive(Debug)]
pub enum Function {
    FunctionDeclaration(FunctionDeclaration),
    FunctionExpression(FunctionExpression),
    ObjectMethod(ObjectMethod),
    ArrowFunctionExpression(ArrowFunctionExpression),
}

#[derive(Debug)]
pub enum FunctionParent {
    FunctionDeclaration(FunctionDeclaration),
    FunctionExpression(FunctionExpression),
    ObjectMethod(ObjectMethod),
    ArrowFunctionExpression(ArrowFunctionExpression),
}

#[derive(Debug)]
pub enum ObjectMember {
    ObjectMethod(ObjectMethod),
    ObjectProperty(ObjectProperty),
}

#[derive(Debug)]
pub enum Method {
    ObjectMethod(ObjectMethod),
}

#[derive(Debug)]
pub enum Property {
    ObjectProperty(ObjectProperty),
}

#[derive(Debug)]
pub enum Block {
    BlockStatement(BlockStatement),
    Program(Program),
}

#[derive(Debug)]
pub enum BlockParent {
    BlockStatement(BlockStatement),
    CatchClause(CatchClause),
    DoWhileStatement(DoWhileStatement),
    ForInStatement(ForInStatement),
    ForStatement(ForStatement),
    FunctionDeclaration(FunctionDeclaration),
    FunctionExpression(FunctionExpression),
    Program(Program),
    SwitchStatement(SwitchStatement),
    WhileStatement(WhileStatement),
}

#[derive(Debug)]
pub enum Scopable {
    BlockStatement(BlockStatement),
    CatchClause(CatchClause),
    ForInStatement(ForInStatement),
    ForStatement(ForStatement),
    FunctionDeclaration(FunctionDeclaration),
    FunctionExpression(FunctionExpression),
    Program(Program),
    SwitchStatement(SwitchStatement),
}

#[derive(Debug)]
pub enum Pureish {
    FunctionDeclaration(FunctionDeclaration),
    FunctionExpression(FunctionExpression),
    StringLiteral(StringLiteral),
    NumericLiteral(NumericLiteral),
    NullLiteral(NullLiteral),
    BooleanLiteral(BooleanLiteral),
    RegExpLiteral(RegExpLiteral),
}

#[derive(Debug)]
pub enum Immutable {
    StringLiteral(StringLiteral),
    NumericLiteral(NumericLiteral),
    NullLiteral(NullLiteral),
    BooleanLiteral(BooleanLiteral),
}

#[derive(Debug)]
pub enum UnaryLike {
    UnaryExpression(UnaryExpression),
}

#[derive(Debug)]
pub enum Declaration {
    FunctionDeclaration(FunctionDeclaration),
    VariableDeclaration(VariableDeclaration),
    EnumDeclaration(EnumDeclaration),
    ImportDeclaration(ImportDeclaration),
}

} // verus!
