//! The conversion engine: one function per source node kind, each building
//! the corresponding output node after taking the node's own envelope.
use vstd::prelude::*;
use crate::ast::{
    Identifier, StringLiteral, Literal, Expression, ArrayEl, Binary, BindaryLeft, Callee, Arg,
    MemberProp, MemberExpression, LVal, Param, BaseNode, BlockStatement, SwitchCase, Statement,
    VariableDeclarator, VariableDeclaration, ModuleSpecifier, ImportDeclaration, ModuleItemOutput,
    ModuleDeclaration, InterpreterDirective, Program, BooleanLiteral, NullLiteral, NumericLiteral, RegExpLiteral, ThisExpression,
    ArrayExpression, FunctionExpression, UnaryExpression, UpdateExpression, BinaryExpression,
    LogicalExpression, AssignmentExpression, ConditionalExpression, CallExpression, NewExpression,
    SequenceExpression, ParenthesizedExpression, RestElement, ExpressionStatement, EmptyStatement,
    DebuggerStatement, ReturnStatement, IfStatement, WhileStatement, DoWhileStatement,
    ThrowStatement, SwitchStatement, FunctionDeclaration, ImportSpecifier, ImportDefaultSpecifier,
    ImportNamespaceSpecifier, BreakStatement, ContinueStatement, LabeledStatement, ForInit,
    ForStatement, ForInLeft, ForInStatement, CatchParam, CatchClause, TryStatement, ObjectKey,
    ObjectPropertyVal, ObjectProperty, ObjectMethod, ObjectExpressionProp, ObjectExpression,
    ArrowFunctionBody, ArrowFunctionExpression, Comment, PatternLike,
};
use crate::decl::{
    EnumDeclaration, EnumBody, EnumBooleanMember, EnumNumberMember, EnumStringBodyMember,
    EnumDefaultedMember, EnumStringMember, EnumBooleanBody, EnumNumberBody, EnumStringBody,
    EnumSymbolBody,
};
use crate::context::{
    Context, placed_at, first_line, lemma_every_comment_handed_out_once, base_comments,
    group_comment_seqs, comment_nodes,
};
use crate::ops;
use crate::source;
use crate::source::{
    Expr, Ident, Lit, Pat, ParamPat, Span, Stmt, EnumKind, EnumMember, EnumDecl, VarDecl,
    VarDeclarator, ImportDecl, ModuleDecl, ModuleItem, VarDeclOrExpr, ForHead, Prop, PropName,
    MethodKind, BlockStmtOrExpr,
};

verus! {

broadcast use {vstd::std_specs::vec::group_vec_axioms, group_comment_seqs};

/// Why a conversion stopped.
#[derive(Debug, Clone, Copy, PartialEq, Eq, Structural)]
pub enum ConvertError {
    /// A node's span does not lie within the registered source text.
    UnregisteredSpan(Span),
    /// A module declaration stood where only statements may.
    IllegalConversion,
    /// An enumeration whose members fit none of the four body shapes.
    UnsupportedEnum(Span),
}

// ---------------------------------------------------------------- operators

/// Which output operator a source binary operator becomes: a binary one
/// (`Ok`) or a logical one (`Err`).
pub open spec fn binary_class(op: source::BinaryOp) -> Result<ops::BinaryOp, ops::LogicalOp> {
    match op {
        source::BinaryOp::EqEq => Ok(ops::BinaryOp::Equal),
        source::BinaryOp::NotEq => Ok(ops::BinaryOp::NotEqual),
        source::BinaryOp::EqEqEq => Ok(ops::BinaryOp::StrictEqual),
        source::BinaryOp::NotEqEq => Ok(ops::BinaryOp::StrictNotEqual),
        source::BinaryOp::Lt => Ok(ops::BinaryOp::LessThan),
        source::BinaryOp::LtEq => Ok(ops::BinaryOp::LessThanOrEqual),
        source::BinaryOp::Gt => Ok(ops::BinaryOp::GreaterThan),
        source::BinaryOp::GtEq => Ok(ops::BinaryOp::GreaterThanOrEqual),
        source::BinaryOp::LShift => Ok(ops::BinaryOp::LeftShift),
        source::BinaryOp::RShift => Ok(ops::BinaryOp::RightShift),
        source::BinaryOp::ZeroFillRShift => Ok(ops::BinaryOp::UnsignedRightShift),
        source::BinaryOp::Add => Ok(ops::BinaryOp::Addition),
        source::BinaryOp::Sub => Ok(ops::BinaryOp::Subtraction),
        source::BinaryOp::Mul => Ok(ops::BinaryOp::Multiplication),
        source::BinaryOp::Div => Ok(ops::BinaryOp::Division),
        source::BinaryOp::Mod => Ok(ops::BinaryOp::Remainder),
        source::BinaryOp::BitOr => Ok(ops::BinaryOp::Or),
        source::BinaryOp::BitXor => Ok(ops::BinaryOp::Xor),
        source::BinaryOp::BitAnd => Ok(ops::BinaryOp::And),
        source::BinaryOp::In => Ok(ops::BinaryOp::In),
        source::BinaryOp::InstanceOf => Ok(ops::BinaryOp::Instanceof),
        source::BinaryOp::Exp => Ok(ops::BinaryOp::Exponentiation),
        source::BinaryOp::LogicalOr => Err(ops::LogicalOp::Or),
        source::BinaryOp::LogicalAnd => Err(ops::LogicalOp::And),
        source::BinaryOp::NullishCoalescing => Err(ops::LogicalOp::Nullish),
    }
}

pub fn classify_binary(op: source::BinaryOp) -> (r: Result<ops::BinaryOp, ops::LogicalOp>)
    ensures
        r == binary_class(op),
{
    match op {
        source::BinaryOp::EqEq => Ok(ops::BinaryOp::Equal),
        source::BinaryOp::NotEq => Ok(ops::BinaryOp::NotEqual),
        source::BinaryOp::EqEqEq => Ok(ops::BinaryOp::StrictEqual),
        source::BinaryOp::NotEqEq => Ok(ops::BinaryOp::StrictNotEqual),
        source::BinaryOp::Lt => Ok(ops::BinaryOp::LessThan),
        source::BinaryOp::LtEq => Ok(ops::BinaryOp::LessThanOrEqual),
        source::BinaryOp::Gt => Ok(ops::BinaryOp::GreaterThan),
        source::BinaryOp::GtEq => Ok(ops::BinaryOp::GreaterThanOrEqual),
        source::BinaryOp::LShift => Ok(ops::BinaryOp::LeftShift),
        source::BinaryOp::RShift => Ok(ops::BinaryOp::RightShift),
        source::BinaryOp::ZeroFillRShift => Ok(ops::BinaryOp::UnsignedRightShift),
        source::BinaryOp::Add => Ok(ops::BinaryOp::Addition),
        source::BinaryOp::Sub => Ok(ops::BinaryOp::Subtraction),
        source::BinaryOp::Mul => Ok(ops::BinaryOp::Multiplication),
        source::BinaryOp::Div => Ok(ops::BinaryOp::Division),
        source::BinaryOp::Mod => Ok(ops::BinaryOp::Remainder),
        source::BinaryOp::BitOr => Ok(ops::BinaryOp::Or),
        source::BinaryOp::BitXor => Ok(ops::BinaryOp::Xor),
        source::BinaryOp::BitAnd => Ok(ops::BinaryOp::And),
        source::BinaryOp::In => Ok(ops::BinaryOp::In),
        source::BinaryOp::InstanceOf => Ok(ops::BinaryOp::Instanceof),
        source::BinaryOp::Exp => Ok(ops::BinaryOp::Exponentiation),
        source::BinaryOp::LogicalOr => Err(ops::LogicalOp::Or),
        source::BinaryOp::LogicalAnd => Err(ops::LogicalOp::And),
        source::BinaryOp::NullishCoalescing => Err(ops::LogicalOp::Nullish),
    }
}

pub open spec fn unary_op(op: source::UnaryOp) -> ops::UnaryOp {
    match op {
        source::UnaryOp::Minus => ops::UnaryOp::Negation,
        source::UnaryOp::Plus => ops::UnaryOp::Plus,
        source::UnaryOp::Bang => ops::UnaryOp::LogicalNot,
        source::UnaryOp::Tilde => ops::UnaryOp::BitwiseNot,
        source::UnaryOp::TypeOf => ops::UnaryOp::Typeof,
        source::UnaryOp::Void => ops::UnaryOp::Void,
        source::UnaryOp::Delete => ops::UnaryOp::Delete,
    }
}

pub fn convert_unary_op(op: source::UnaryOp) -> (r: ops::UnaryOp)
    ensures
        r == unary_op(op),
{
    match op {
        source::UnaryOp::Minus => ops::UnaryOp::Negation,
        source::UnaryOp::Plus => ops::UnaryOp::Plus,
        source::UnaryOp::Bang => ops::UnaryOp::LogicalNot,
        source::UnaryOp::Tilde => ops::UnaryOp::BitwiseNot,
        source::UnaryOp::TypeOf => ops::UnaryOp::Typeof,
        source::UnaryOp::Void => ops::UnaryOp::Void,
        source::UnaryOp::Delete => ops::UnaryOp::Delete,
    }
}

pub open spec fn update_op(op: source::UpdateOp) -> ops::UpdateOp {
    match op {
        source::UpdateOp::PlusPlus => ops::UpdateOp::Increment,
        source::UpdateOp::MinusMinus => ops::UpdateOp::Decrement,
    }
}

pub open spec fn assign_token(op: source::AssignOp) -> Seq<char> {
    match op {
        source::AssignOp::Assign => "="@,
        source::AssignOp::AddAssign => "+="@,
        source::AssignOp::SubAssign => "-="@,
        source::AssignOp::MulAssign => "*="@,
        source::AssignOp::DivAssign => "/="@,
        source::AssignOp::ModAssign => "%="@,
        source::AssignOp::LShiftAssign => "<<="@,
        source::AssignOp::RShiftAssign => ">>="@,
        source::AssignOp::ZeroFillRShiftAssign => ">>>="@,
        source::AssignOp::BitOrAssign => "|="@,
        source::AssignOp::BitXorAssign => "^="@,
        source::AssignOp::BitAndAssign => "&="@,
        source::AssignOp::ExpAssign => "**="@,
        source::AssignOp::AndAssign => "&&="@,
        source::AssignOp::OrAssign => "||="@,
        source::AssignOp::NullishAssign => "??="@,
    }
}

pub fn assign_operator(op: source::AssignOp) -> (r: String)
    ensures
        r@ == assign_token(op),
{
    let s: &str = match op {
        source::AssignOp::Assign => "=",
        source::AssignOp::AddAssign => "+=",
        source::AssignOp::SubAssign => "-=",
        source::AssignOp::MulAssign => "*=",
        source::AssignOp::DivAssign => "/=",
        source::AssignOp::ModAssign => "%=",
        source::AssignOp::LShiftAssign => "<<=",
        source::AssignOp::RShiftAssign => ">>=",
        source::AssignOp::ZeroFillRShiftAssign => ">>>=",
        source::AssignOp::BitOrAssign => "|=",
        source::AssignOp::BitXorAssign => "^=",
        source::AssignOp::BitAndAssign => "&=",
        source::AssignOp::ExpAssign => "**=",
        source::AssignOp::AndAssign => "&&=",
        source::AssignOp::OrAssign => "||=",
        source::AssignOp::NullishAssign => "??=",
    };
    s.to_owned()
}

/// A source flag that is only ever set, as an optional output field:
/// present when set, absent otherwise.
pub open spec fn flag(b: bool) -> Option<bool> {
    if b {
        Some(true)
    } else {
        None
    }
}

} // verus!

verus! {

pub open spec fn var_kind(k: source::VarDeclKind) -> ops::VariableDeclarationKind {
    match k {
        source::VarDeclKind::Var => ops::VariableDeclarationKind::Var,
        source::VarDeclKind::Let => ops::VariableDeclarationKind::Let,
        source::VarDeclKind::Const => ops::VariableDeclarationKind::Const,
    }
}

pub open spec fn lit_span(l: Lit) -> Span {
    match l {
        Lit::Str(x) => x.span,
        Lit::Bool(x) => x.span,
        Lit::Null(x) => x.span,
        Lit::Num(x) => x.span,
        Lit::Regex(x) => x.span,
    }
}

// ------------------------------------------------------- enumeration bodies

/// The body shape that a literal initializer asks for, if any.
pub open spec fn lit_kind(l: Lit) -> Option<EnumKind> {
    match l {
        Lit::Bool(_) => Some(EnumKind::Boolean),
        Lit::Num(_) => Some(EnumKind::Number),
        Lit::Str(_) => Some(EnumKind::String),
        _ => None,
    }
}

/// The shape asked for by the first initialized member from `i` on;
/// a body with no initialized member is a string body.
pub open spec fn inferred_kind(ms: Seq<EnumMember>, i: int) -> Option<EnumKind>
    decreases ms.len() - i,
{
    if i < 0 || i >= ms.len() {
        Some(EnumKind::String)
    } else {
        match ms[i].init {
            Some(l) => lit_kind(l),
            None => inferred_kind(ms, i + 1),
        }
    }
}

/// Whether a member fits a body shape: boolean and number bodies want
/// every member initialized with their literal kind, a string body takes
/// string initializers and defaulted members, a symbol body only defaulted ones.
pub open spec fn member_fits(k: EnumKind, m: EnumMember) -> bool {
    match k {
        EnumKind::Boolean => m.init matches Some(Lit::Bool(_)),
        EnumKind::Number => m.init matches Some(Lit::Num(_)),
        EnumKind::String => m.init is None || m.init matches Some(Lit::Str(_)),
        EnumKind::Symbol => m.init is None,
    }
}

/// The shape an enumeration names, or else the one its first initializer
/// asks for.
pub open spec fn chosen_kind(e: EnumDecl) -> Option<EnumKind> {
    match e.explicit_type {
        Some(k) => Some(k),
        None => inferred_kind(e.members@, 0),
    }
}

/// The body shape of an enumeration: the one it names, or else the one
/// its first initializer asks for; `None` where some member does not fit it.
pub open spec fn enum_kind(e: EnumDecl) -> Option<EnumKind> {
    match chosen_kind(e) {
        Some(k) => if forall|i: int| 0 <= i < e.members@.len() ==> member_fits(k, #[trigger] e.members@[i]) {
            Some(k)
        } else {
            None
        },
        None => None,
    }
}

// ------------------------------------------------------------------ validity

pub open spec fn expr_ok(e: Expr, len: nat) -> bool
    decreases e,
{
    match e {
        Expr::This(x) => x.span.within(len),
        Expr::Array(x) => x.span.within(len) && forall|i: int|
            0 <= i < x.elems@.len() ==> opt_ok(#[trigger] x.elems@[i], len),
        Expr::Object(x) => x.span.within(len) && forall|i: int|
            0 <= i < x.props@.len() ==> prop_ok(#[trigger] x.props@[i], len),
        Expr::Fn(x) => (match x.ident {
            Some(id) => id.span.within(len),
            None => true,
        }) && function_ok(x.function, len),
        Expr::Arrow(x) => x.span.within(len) && (forall|i: int|
            0 <= i < x.params@.len() ==> param_ok(#[trigger] x.params@[i], len)) && match x.body {
            BlockStmtOrExpr::BlockStmt(b) => block_ok(b, len),
            BlockStmtOrExpr::Expr(e) => expr_ok(*e, len),
        },
        Expr::Unary(x) => x.span.within(len) && expr_ok(*x.arg, len),
        Expr::Update(x) => x.span.within(len) && expr_ok(*x.arg, len),
        Expr::Bin(x) => x.span.within(len) && expr_ok(*x.left, len) && expr_ok(*x.right, len),
        Expr::Assign(x) => x.span.within(len) && pat_ok(x.left, len) && expr_ok(*x.right, len),
        Expr::Member(x) => member_ok(x, len),
        Expr::Cond(x) => x.span.within(len) && expr_ok(*x.test, len) && expr_ok(*x.cons, len)
            && expr_ok(*x.alt, len),
        Expr::Call(x) => x.span.within(len) && expr_ok(*x.callee, len) && forall|i: int|
            0 <= i < x.args@.len() ==> expr_ok(#[trigger] x.args@[i], len),
        Expr::New(x) => x.span.within(len) && expr_ok(*x.callee, len) && match x.args {
            Some(a) => forall|i: int| 0 <= i < a@.len() ==> expr_ok(#[trigger] a@[i], len),
            None => true,
        },
        Expr::Sequence(x) => x.span.within(len) && forall|i: int|
            0 <= i < x.exprs@.len() ==> expr_ok(#[trigger] x.exprs@[i], len),
        Expr::Ident(x) => x.span.within(len),
        Expr::Lit(x) => lit_span(x).within(len),
        Expr::Paren(x) => x.span.within(len) && expr_ok(*x.expr, len),
    }
}

pub open spec fn key_ok(k: PropName, len: nat) -> bool
    decreases k,
{
    match k {
        PropName::Ident(i) => i.span.within(len),
        PropName::Str(v) => v.span.within(len),
        PropName::Num(n) => n.span.within(len),
        PropName::Computed(c) => expr_ok(*c.expr, len),
    }
}

pub open spec fn prop_ok(p: Prop, len: nat) -> bool
    decreases p,
{
    match p {
        Prop::KeyValue(kv) => kv.span.within(len) && key_ok(kv.key, len) && expr_ok(*kv.value, len),
        Prop::Shorthand(i) => i.span.within(len),
        Prop::Method(m) => key_ok(m.key, len) && function_ok(m.function, len),
    }
}

pub open spec fn opt_ok(e: Option<Expr>, len: nat) -> bool
    decreases e,
{
    match e {
        Some(y) => expr_ok(y, len),
        None => true,
    }
}

pub open spec fn member_ok(m: source::MemberExpr, len: nat) -> bool
    decreases m,
{
    m.span.within(len) && expr_ok(*m.obj, len) && match m.prop {
        source::MemberProp::Ident(i) => i.span.within(len),
        source::MemberProp::Computed(c) => expr_ok(*c.expr, len),
    }
}

pub open spec fn pat_ok(p: Pat, len: nat) -> bool
    decreases p,
{
    match p {
        Pat::Ident(i) => i.span.within(len),
        Pat::Member(m) => member_ok(m, len),
        Pat::Rest(r) => r.span.within(len) && pat_ok(*r.arg, len),
    }
}

pub open spec fn param_ok(p: ParamPat, len: nat) -> bool
    decreases p,
{
    match p {
        ParamPat::Ident(i) => i.span.within(len),
        ParamPat::Rest(r) => r.span.within(len) && pat_ok(*r.arg, len),
    }
}

pub open spec fn function_ok(f: source::Function, len: nat) -> bool
    decreases f,
{
    f.span.within(len) && (forall|i: int|
        0 <= i < f.params@.len() ==> param_ok(#[trigger] f.params@[i], len)) && block_ok(
        f.body,
        len,
    )
}

pub open spec fn block_ok(b: source::BlockStmt, len: nat) -> bool
    decreases b,
{
    b.span.within(len) && forall|i: int| 0 <= i < b.stmts@.len() ==> stmt_ok(#[trigger] b.stmts@[i], len)
}

pub open spec fn opt_expr_ok(e: Option<Box<Expr>>, len: nat) -> bool
    decreases e,
{
    match e {
        Some(x) => expr_ok(*x, len),
        None => true,
    }
}

pub open spec fn case_ok(c: source::SwitchCase, len: nat) -> bool
    decreases c,
{
    c.span.within(len) && opt_expr_ok(c.test, len) && forall|i: int|
        0 <= i < c.cons@.len() ==> stmt_ok(#[trigger] c.cons@[i], len)
}

pub open spec fn stmt_ok(s: Stmt, len: nat) -> bool
    decreases s,
{
    match s {
        Stmt::Expr(x) => x.span.within(len) && expr_ok(*x.expr, len),
        Stmt::Block(x) => block_ok(x, len),
        Stmt::Empty(x) => x.span.within(len),
        Stmt::Debugger(x) => x.span.within(len),
        Stmt::Return(x) => x.span.within(len) && opt_expr_ok(x.arg, len),
        Stmt::If(x) => x.span.within(len) && expr_ok(*x.test, len) && stmt_ok(*x.cons, len)
            && match x.alt {
            Some(a) => stmt_ok(*a, len),
            None => true,
        },
        Stmt::While(x) => x.span.within(len) && expr_ok(*x.test, len) && stmt_ok(*x.body, len),
        Stmt::DoWhile(x) => x.span.within(len) && expr_ok(*x.test, len) && stmt_ok(*x.body, len),
        Stmt::Throw(x) => x.span.within(len) && expr_ok(*x.arg, len),
        Stmt::Switch(x) => x.span.within(len) && expr_ok(*x.discriminant, len) && forall|i: int|
            0 <= i < x.cases@.len() ==> case_ok(#[trigger] x.cases@[i], len),
        Stmt::Break(x) => x.span.within(len) && opt_ident_ok(x.label, len),
        Stmt::Continue(x) => x.span.within(len) && opt_ident_ok(x.label, len),
        Stmt::Labeled(x) => x.span.within(len) && x.label.span.within(len) && stmt_ok(*x.body, len),
        Stmt::For(x) => x.span.within(len) && for_init_ok(x.init, len) && opt_expr_ok(x.test, len) && opt_expr_ok(x.update, len) && stmt_ok(*x.body, len),
        Stmt::ForIn(x) => x.span.within(len) && for_head_ok(x.left, len) && expr_ok(*x.right, len)
            && stmt_ok(*x.body, len),
        Stmt::Try(x) => x.span.within(len) && block_ok(x.block, len) && match x.handler {
            Some(h) => catch_ok(h, len),
            None => true,
        } && match x.finalizer {
            Some(f) => block_ok(f, len),
            None => true,
        },
        Stmt::Decl(source::Decl::Var(x)) => var_decl_ok(x, len),
        Stmt::Decl(source::Decl::Fn(x)) => x.ident.span.within(len) && function_ok(x.function, len),
        Stmt::Decl(source::Decl::Enum(x)) => enum_ok(x, len),
    }
}

pub open spec fn for_init_ok(i: Option<VarDeclOrExpr>, len: nat) -> bool
    decreases i,
{
    match i {
        Some(VarDeclOrExpr::VarDecl(v)) => var_decl_ok(v, len),
        Some(VarDeclOrExpr::Expr(e)) => expr_ok(*e, len),
        None => true,
    }
}

pub open spec fn for_head_ok(h: ForHead, len: nat) -> bool
    decreases h,
{
    match h {
        ForHead::VarDecl(v) => var_decl_ok(v, len),
        ForHead::Pat(p) => pat_ok(p, len),
    }
}

pub open spec fn catch_ok(h: source::CatchClause, len: nat) -> bool
    decreases h,
{
    h.span.within(len) && opt_ident_ok(h.param, len) && block_ok(h.body, len)
}

pub open spec fn opt_ident_ok(i: Option<Ident>, len: nat) -> bool {
    match i {
        Some(x) => x.span.within(len),
        None => true,
    }
}

pub open spec fn declarator_ok(d: VarDeclarator, len: nat) -> bool
    decreases d,
{
    d.span.within(len) && pat_ok(d.name, len) && opt_expr_ok(d.init, len)
}

pub open spec fn var_decl_ok(v: VarDecl, len: nat) -> bool
    decreases v,
{
    v.span.within(len) && forall|i: int|
        0 <= i < v.decls@.len() ==> declarator_ok(#[trigger] v.decls@[i], len)
}

pub open spec fn enum_member_ok(m: EnumMember, len: nat) -> bool {
    m.span.within(len) && m.id.span.within(len) && match m.init {
        Some(l) => lit_span(l).within(len),
        None => true,
    }
}

pub open spec fn enum_spans_ok(e: EnumDecl, len: nat) -> bool {
    e.span.within(len) && e.id.span.within(len) && forall|i: int|
        0 <= i < e.members@.len() ==> enum_member_ok(#[trigger] e.members@[i], len)
}

pub open spec fn enum_ok(e: EnumDecl, len: nat) -> bool {
    enum_spans_ok(e, len) && enum_kind(e) is Some
}

pub open spec fn specifier_ok(s: source::ImportSpecifier, len: nat) -> bool {
    match s {
        source::ImportSpecifier::Named(x) => x.span.within(len) && x.local.span.within(len)
            && match x.imported {
            Some(i) => i.span.within(len),
            None => true,
        },
        source::ImportSpecifier::Default(x) => x.span.within(len) && x.local.span.within(len),
        source::ImportSpecifier::Namespace(x) => x.span.within(len) && x.local.span.within(len),
    }
}

pub open spec fn import_ok(d: ImportDecl, len: nat) -> bool {
    d.span.within(len) && d.src.span.within(len) && forall|i: int|
        0 <= i < d.specifiers@.len() ==> specifier_ok(#[trigger] d.specifiers@[i], len)
}

pub open spec fn item_ok(m: ModuleItem, len: nat) -> bool {
    match m {
        ModuleItem::ModuleDecl(ModuleDecl::Import(d)) => import_ok(d, len),
        ModuleItem::Stmt(s) => stmt_ok(s, len),
    }
}

pub open spec fn program_ok(p: source::Program, len: nat) -> bool {
    match p {
        source::Program::Module(m) => m.span.within(len) && forall|i: int|
            0 <= i < m.body@.len() ==> item_ok(#[trigger] m.body@[i], len),
        source::Program::Script(s) => s.span.within(len) && forall|i: int|
            0 <= i < s.body@.len() ==> stmt_ok(#[trigger] s.body@[i], len),
    }
}

} // verus!

verus! {

// ------------------------------------------------------------------ fidelity

pub open spec fn ident_rep(t: Identifier, s: Ident, text: Seq<u8>) -> bool {
    placed_at(t.base, s.span, text) && t.name == s.sym && t.optional == flag(s.optional)
}

pub open spec fn str_rep(t: StringLiteral, s: source::Str, text: Seq<u8>) -> bool {
    placed_at(t.base, s.span, text) && t.value == s.value
}

pub open spec fn lit_rep(t: Literal, s: Lit, text: Seq<u8>) -> bool {
    match (t, s) {
        (Literal::StringLiteral(y), Lit::Str(x)) => str_rep(y, x, text),
        (Literal::NumericLiteral(y), Lit::Num(x)) => placed_at(y.base, x.span, text) && y.value
            == x.value,
        (Literal::BooleanLiteral(y), Lit::Bool(x)) => placed_at(y.base, x.span, text) && y.value
            == x.value,
        (Literal::NullLiteral(y), Lit::Null(x)) => placed_at(y.base, x.span, text),
        (Literal::RegExpLiteral(y), Lit::Regex(x)) => placed_at(y.base, x.span, text) && y.pattern
            == x.exp && y.flags == x.flags,
        _ => false,
    }
}

pub open spec fn opt_ident_rep(t: Option<Identifier>, s: Option<Ident>, text: Seq<u8>) -> bool {
    match (t, s) {
        (Some(y), Some(x)) => ident_rep(y, x, text),
        (None, None) => true,
        _ => false,
    }
}

pub open spec fn expr_rep(t: Expression, s: Expr, text: Seq<u8>) -> bool
    decreases s,
{
    match (t, s) {
        (Expression::ThisExpression(y), Expr::This(x)) => placed_at(y.base, x.span, text),
        (Expression::ArrayExpression(y), Expr::Array(x)) => placed_at(y.base, x.span, text)
            && y.elements@.len() == x.elems@.len() && forall|i: int|
            0 <= i < x.elems@.len() ==> element_rep(y.elements@[i], #[trigger] x.elems@[i], text),
        (Expression::ObjectExpression(y), Expr::Object(x)) => placed_at(y.base, x.span, text)
            && y.properties@.len() == x.props@.len() && forall|i: int|
            0 <= i < x.props@.len() ==> prop_rep(y.properties@[i], #[trigger] x.props@[i], text),
        (Expression::FunctionExpression(y), Expr::Fn(x)) => opt_ident_rep(y.id, x.ident, text)
            && function_rep(y.base, y.params, y.body, y.generator, y.is_async, x.function, text),
        (Expression::ArrowFunctionExpression(y), Expr::Arrow(x)) => placed_at(y.base, x.span, text)
            && y.is_async == x.is_async && y.generator == x.is_generator && y.params@.len()
            == x.params@.len() && (forall|i: int|
            0 <= i < x.params@.len() ==> param_rep(y.params@[i], #[trigger] x.params@[i], text))
            && match (y.body, x.body) {
            (ArrowFunctionBody::BlockStatement(a), BlockStmtOrExpr::BlockStmt(b)) => !y.expression
                && block_rep(a, b, text),
            (ArrowFunctionBody::Expression(a), BlockStmtOrExpr::Expr(b)) => y.expression && expr_rep(
                *a,
                *b,
                text,
            ),
            _ => false,
        },
        (Expression::UnaryExpression(y), Expr::Unary(x)) => placed_at(y.base, x.span, text)
            && y.operator == unary_op(x.op) && y.prefix && expr_rep(*y.argument, *x.arg, text),
        (Expression::UpdateExpression(y), Expr::Update(x)) => placed_at(y.base, x.span, text)
            && y.operator == update_op(x.op) && y.prefix == x.prefix && expr_rep(
            *y.argument,
            *x.arg,
            text,
        ),
        (Expression::Binary(Binary::BinaryExpression(y)), Expr::Bin(x)) => placed_at(
            y.base,
            x.span,
            text,
        ) && binary_class(x.op) == Ok::<ops::BinaryOp, ops::LogicalOp>(y.operator) && match *y.left {
            BindaryLeft::Expression(l) => expr_rep(l, *x.left, text),
        } && expr_rep(*y.right, *x.right, text),
        (Expression::Binary(Binary::LogicalExpression(y)), Expr::Bin(x)) => placed_at(
            y.base,
            x.span,
            text,
        ) && binary_class(x.op) == Err::<ops::BinaryOp, ops::LogicalOp>(y.operator) && expr_rep(
            *y.left,
            *x.left,
            text,
        ) && expr_rep(*y.right, *x.right, text),
        (Expression::AssignmentExpression(y), Expr::Assign(x)) => placed_at(y.base, x.span, text)
            && y.operator@ == assign_token(x.op) && lval_rep(*y.left, x.left, text) && expr_rep(
            *y.right,
            *x.right,
            text,
        ),
        (Expression::MemberExpression(y), Expr::Member(x)) => member_rep(y, x, text),
        (Expression::ConditionalExpression(y), Expr::Cond(x)) => placed_at(y.base, x.span, text)
            && expr_rep(*y.test, *x.test, text) && expr_rep(*y.consequent, *x.cons, text)
            && expr_rep(*y.alternate, *x.alt, text),
        (Expression::CallExpression(y), Expr::Call(x)) => placed_at(y.base, x.span, text)
            && y.optional is None && match *y.callee {
            Callee::Expression(c) => expr_rep(c, *x.callee, text),
        } && y.arguments@.len() == x.args@.len() && forall|i: int|
            0 <= i < x.args@.len() ==> match y.arguments@[i] {
                Arg::Expression(a) => expr_rep(a, #[trigger] x.args@[i], text),
            },
        (Expression::NewExpression(y), Expr::New(x)) => placed_at(y.base, x.span, text)
            && y.optional is None && match *y.callee {
            Callee::Expression(c) => expr_rep(c, *x.callee, text),
        } && match x.args {
            Some(v) => y.arguments@.len() == v@.len() && forall|i: int|
                0 <= i < v@.len() ==> match y.arguments@[i] {
                    Arg::Expression(a) => expr_rep(a, #[trigger] v@[i], text),
                },
            None => y.arguments@.len() == 0,
        },
        (Expression::SequenceExpression(y), Expr::Sequence(x)) => placed_at(y.base, x.span, text)
            && y.expressions@.len() == x.exprs@.len() && forall|i: int|
            0 <= i < x.exprs@.len() ==> expr_rep(y.expressions@[i], #[trigger] x.exprs@[i], text),
        (Expression::Identifier(y), Expr::Ident(x)) => ident_rep(y, x, text),
        (Expression::Literal(y), Expr::Lit(x)) => lit_rep(y, x, text),
        (Expression::ParenthesizedExpression(y), Expr::Paren(x)) => placed_at(y.base, x.span, text)
            && expr_rep(*y.expression, *x.expr, text),
        _ => false,
    }
}

pub open spec fn method_kind(k: MethodKind) -> ops::ObjectKind {
    match k {
        MethodKind::Method => ops::ObjectKind::Method,
        MethodKind::Getter => ops::ObjectKind::Getter,
        MethodKind::Setter => ops::ObjectKind::Setter,
    }
}

/// The key is faithful, and `computed` tells whether it was written in brackets.
pub open spec fn key_rep(t: ObjectKey, computed: bool, s: PropName, text: Seq<u8>) -> bool
    decreases s,
{
    match (t, s) {
        (ObjectKey::Identifier(a), PropName::Ident(b)) => !computed && ident_rep(a, b, text),
        (ObjectKey::StringLiteral(a), PropName::Str(b)) => !computed && str_rep(a, b, text),
        (ObjectKey::NumericLiteral(a), PropName::Num(b)) => !computed && placed_at(a.base, b.span, text)
            && a.value == b.value,
        (ObjectKey::Expression(a), PropName::Computed(c)) => computed && expr_rep(a, *c.expr, text),
        _ => false,
    }
}

pub open spec fn prop_rep(t: ObjectExpressionProp, s: Prop, text: Seq<u8>) -> bool
    decreases s,
{
    match (t, s) {
        (ObjectExpressionProp::ObjectProperty(y), Prop::KeyValue(x)) => placed_at(y.base, x.span, text)
            && !y.shorthand && key_rep(y.key, y.computed, x.key, text) && match y.value {
            ObjectPropertyVal::Expression(e) => expr_rep(e, *x.value, text),
            _ => false,
        },
        (ObjectExpressionProp::ObjectProperty(y), Prop::Shorthand(i)) => placed_at(y.base, i.span, text)
            && y.shorthand && !y.computed && match (y.key, y.value) {
            (
                ObjectKey::Identifier(k),
                ObjectPropertyVal::Expression(Expression::Identifier(v)),
            ) => ident_rep(k, i, text) && ident_rep(v, i, text),
            _ => false,
        },
        (ObjectExpressionProp::ObjectMethod(y), Prop::Method(x)) => y.kind == method_kind(x.kind)
            && key_rep(y.key, y.computed, x.key, text) && function_rep(
            y.base,
            y.params,
            y.body,
            y.generator,
            y.is_async,
            x.function,
            text,
        ),
        _ => false,
    }
}

pub open spec fn element_rep(t: Option<ArrayEl>, s: Option<Expr>, text: Seq<u8>) -> bool
    decreases s,
{
    match (t, s) {
        (Some(ArrayEl::Expression(a)), Some(b)) => expr_rep(a, b, text),
        (None, None) => true,
        _ => false,
    }
}

pub open spec fn member_rep(t: MemberExpression, s: source::MemberExpr, text: Seq<u8>) -> bool
    decreases s,
{
    placed_at(t.base, s.span, text) && t.optional is None && expr_rep(*t.object, *s.obj, text)
        && match (*t.property, s.prop) {
        (MemberProp::Identifier(a), source::MemberProp::Ident(b)) => !t.computed && ident_rep(
            a,
            b,
            text,
        ),
        (MemberProp::Expression(a), source::MemberProp::Computed(c)) => t.computed && expr_rep(
            a,
            *c.expr,
            text,
        ),
        _ => false,
    }
}

pub open spec fn lval_rep(t: LVal, s: Pat, text: Seq<u8>) -> bool
    decreases s,
{
    match (t, s) {
        (LVal::Identifier(y), Pat::Ident(x)) => ident_rep(y, x, text),
        (LVal::MemberExpression(y), Pat::Member(x)) => member_rep(y, x, text),
        (LVal::RestElement(y), Pat::Rest(x)) => placed_at(y.base, x.span, text) && lval_rep(
            *y.argument,
            *x.arg,
            text,
        ),
        _ => false,
    }
}

pub open spec fn param_rep(t: Param, s: ParamPat, text: Seq<u8>) -> bool
    decreases s,
{
    match (t, s) {
        (Param::Identifier(y), ParamPat::Ident(x)) => ident_rep(y, x, text),
        (Param::RestElement(y), ParamPat::Rest(x)) => placed_at(y.base, x.span, text) && lval_rep(
            *y.argument,
            *x.arg,
            text,
        ),
        _ => false,
    }
}

/// The parts that function expressions and declarations share.
pub open spec fn function_rep(
    base: BaseNode,
    params: Vec<Param>,
    body: BlockStatement,
    generator: Option<bool>,
    is_async: Option<bool>,
    f: source::Function,
    text: Seq<u8>,
) -> bool
    decreases f,
{
    placed_at(base, f.span, text) && generator == Some(f.is_generator) && is_async == Some(
        f.is_async,
    ) && params@.len() == f.params@.len() && (forall|i: int|
        0 <= i < f.params@.len() ==> param_rep(params@[i], #[trigger] f.params@[i], text))
        && block_rep(body, f.body, text)
}

pub open spec fn block_rep(t: BlockStatement, s: source::BlockStmt, text: Seq<u8>) -> bool
    decreases s,
{
    placed_at(t.base, s.span, text) && t.directives@.len() == 0 && t.body@.len() == s.stmts@.len()
        && forall|i: int| 0 <= i < s.stmts@.len() ==> stmt_rep(t.body@[i], #[trigger] s.stmts@[i], text)
}

pub open spec fn opt_expr_rep(t: Option<Expression>, s: Option<Box<Expr>>, text: Seq<u8>) -> bool
    decreases s,
{
    match (t, s) {
        (Some(y), Some(x)) => expr_rep(y, *x, text),
        (None, None) => true,
        _ => false,
    }
}

pub open spec fn case_rep(t: SwitchCase, s: source::SwitchCase, text: Seq<u8>) -> bool
    decreases s,
{
    placed_at(t.base, s.span, text) && opt_expr_rep(t.test, s.test, text) && t.consequent@.len()
        == s.cons@.len() && forall|i: int|
        0 <= i < s.cons@.len() ==> stmt_rep(t.consequent@[i], #[trigger] s.cons@[i], text)
}

pub open spec fn stmt_rep(t: Statement, s: Stmt, text: Seq<u8>) -> bool
    decreases s,
{
    match (t, s) {
        (Statement::ExpressionStatement(y), Stmt::Expr(x)) => placed_at(y.base, x.span, text)
            && expr_rep(y.expression, *x.expr, text),
        (Statement::BlockStatement(y), Stmt::Block(x)) => block_rep(y, x, text),
        (Statement::EmptyStatement(y), Stmt::Empty(x)) => placed_at(y.base, x.span, text),
        (Statement::DebuggerStatement(y), Stmt::Debugger(x)) => placed_at(y.base, x.span, text),
        (Statement::ReturnStatement(y), Stmt::Return(x)) => placed_at(y.base, x.span, text)
            && opt_expr_rep(y.argument, x.arg, text),
        (Statement::IfStatement(y), Stmt::If(x)) => placed_at(y.base, x.span, text) && expr_rep(
            y.test,
            *x.test,
            text,
        ) && stmt_rep(*y.consequent, *x.cons, text) && match (y.alternate, x.alt) {
            (Some(a), Some(b)) => stmt_rep(*a, *b, text),
            (None, None) => true,
            _ => false,
        },
        (Statement::WhileStatement(y), Stmt::While(x)) => placed_at(y.base, x.span, text)
            && expr_rep(y.test, *x.test, text) && stmt_rep(*y.body, *x.body, text),
        (Statement::DoWhileStatement(y), Stmt::DoWhile(x)) => placed_at(y.base, x.span, text)
            && expr_rep(y.test, *x.test, text) && stmt_rep(*y.body, *x.body, text),
        (Statement::ThrowStatement(y), Stmt::Throw(x)) => placed_at(y.base, x.span, text)
            && expr_rep(y.argument, *x.arg, text),
        (Statement::SwitchStatement(y), Stmt::Switch(x)) => placed_at(y.base, x.span, text)
            && expr_rep(y.descriminant, *x.discriminant, text) && y.cases@.len() == x.cases@.len()
            && forall|i: int|
            0 <= i < x.cases@.len() ==> case_rep(y.cases@[i], #[trigger] x.cases@[i], text),
        (Statement::BreakStatement(y), Stmt::Break(x)) => placed_at(y.base, x.span, text)
            && opt_ident_rep(y.label, x.label, text),
        (Statement::ContinueStatement(y), Stmt::Continue(x)) => placed_at(y.base, x.span, text)
            && opt_ident_rep(y.label, x.label, text),
        (Statement::LabeledStatement(y), Stmt::Labeled(x)) => placed_at(y.base, x.span, text)
            && ident_rep(y.label, x.label, text) && stmt_rep(*y.body, *x.body, text),
        (Statement::ForStatement(y), Stmt::For(x)) => placed_at(y.base, x.span, text)
            && for_init_rep(y.init, x.init, text) && opt_expr_rep(y.test, x.test, text) && opt_expr_rep(y.update, x.update, text)
            && stmt_rep(*y.body, *x.body, text),
        (Statement::ForInStatement(y), Stmt::ForIn(x)) => placed_at(y.base, x.span, text)
            && for_left_rep(y.left, x.left, text) && expr_rep(y.right, *x.right, text) && stmt_rep(*y.body, *x.body, text),
        (Statement::TryStatement(y), Stmt::Try(x)) => placed_at(y.base, x.span, text) && block_rep(
            y.block,
            x.block,
            text,
        ) && match (y.handler, x.handler) {
            (Some(a), Some(b)) => catch_rep(a, b, text),
            (None, None) => true,
            _ => false,
        } && match (y.finalizer, x.finalizer) {
            (Some(a), Some(b)) => block_rep(a, b, text),
            (None, None) => true,
            _ => false,
        },
        (Statement::VariableDeclaration(y), Stmt::Decl(source::Decl::Var(x))) => var_decl_rep(
            y,
            x,
            text,
        ),
        (Statement::FunctionDeclaration(y), Stmt::Decl(source::Decl::Fn(x))) => (match y.id {
            Some(i) => ident_rep(i, x.ident, text),
            None => false,
        }) && function_rep(
            y.base,
            y.params,
            y.body,
            y.generator,
            y.is_async,
            x.function,
            text,
        ),
        (Statement::EnumDeclaration(y), Stmt::Decl(source::Decl::Enum(x))) => enum_rep(y, x, text),
        _ => false,
    }
}

pub open spec fn for_init_rep(t: Option<ForInit>, s: Option<VarDeclOrExpr>, text: Seq<u8>) -> bool
    decreases s,
{
    match (t, s) {
        (Some(ForInit::VariableDeclaration(a)), Some(VarDeclOrExpr::VarDecl(b))) => var_decl_rep(a, b, text),
        (Some(ForInit::Expression(a)), Some(VarDeclOrExpr::Expr(b))) => expr_rep(a, *b, text),
        (None, None) => true,
        _ => false,
    }
}

pub open spec fn for_left_rep(t: ForInLeft, s: ForHead, text: Seq<u8>) -> bool
    decreases s,
{
    match (t, s) {
        (ForInLeft::VariableDeclaration(a), ForHead::VarDecl(b)) => var_decl_rep(a, b, text),
        (ForInLeft::LVal(a), ForHead::Pat(b)) => lval_rep(a, b, text),
        _ => false,
    }
}

pub open spec fn catch_rep(t: CatchClause, s: source::CatchClause, text: Seq<u8>) -> bool
    decreases s,
{
    placed_at(t.base, s.span, text) && match (t.param, s.param) {
        (Some(CatchParam::Identifier(i)), Some(j)) => ident_rep(i, j, text),
        (None, None) => true,
        _ => false,
    } && block_rep(t.body, s.body, text)
}

pub open spec fn declarator_rep(t: VariableDeclarator, s: VarDeclarator, text: Seq<u8>) -> bool
    decreases s,
{
    placed_at(t.base, s.span, text) && lval_rep(t.id, s.name, text) && t.definite == flag(
        s.definite,
    ) && match (t.init, s.init) {
        (Some(a), Some(b)) => expr_rep(*a, *b, text),
        (None, None) => true,
        _ => false,
    }
}

pub open spec fn var_decl_rep(t: VariableDeclaration, s: VarDecl, text: Seq<u8>) -> bool
    decreases s,
{
    placed_at(t.base, s.span, text) && t.kind == var_kind(s.kind) && t.declare == flag(s.declare)
        && t.declarations@.len() == s.decls@.len() && forall|i: int|
        0 <= i < s.decls@.len() ==> declarator_rep(t.declarations@[i], #[trigger] s.decls@[i], text)
}

} // verus!

verus! {

pub open spec fn bool_member_rep(t: EnumBooleanMember, s: EnumMember, text: Seq<u8>) -> bool {
    placed_at(t.base, s.span, text) && ident_rep(t.id, s.id, text) && match s.init {
        Some(Lit::Bool(b)) => placed_at(t.init.base, b.span, text) && t.init.value == b.value,
        _ => false,
    }
}

pub open spec fn number_member_rep(t: EnumNumberMember, s: EnumMember, text: Seq<u8>) -> bool {
    placed_at(t.base, s.span, text) && ident_rep(t.id, s.id, text) && match s.init {
        Some(Lit::Num(n)) => placed_at(t.init.base, n.span, text) && t.init.value == n.value,
        _ => false,
    }
}

pub open spec fn defaulted_member_rep(t: EnumDefaultedMember, s: EnumMember, text: Seq<u8>) -> bool {
    placed_at(t.base, s.span, text) && ident_rep(t.id, s.id, text) && s.init is None
}

pub open spec fn string_member_rep(t: EnumStringBodyMember, s: EnumMember, text: Seq<u8>) -> bool {
    match (t, s.init) {
        (EnumStringBodyMember::String(m), Some(Lit::Str(v))) => placed_at(m.base, s.span, text)
            && ident_rep(m.id, s.id, text) && str_rep(m.init, v, text),
        (EnumStringBodyMember::Defaulted(m), None) => defaulted_member_rep(m, s, text),
        _ => false,
    }
}

/// The body has the shape that the declaration's members call for, spans
/// the whole declaration, and holds one member per source member, in order.
pub open spec fn enum_body_rep(t: EnumBody, s: EnumDecl, text: Seq<u8>) -> bool {
    let ms = s.members@;
    match (enum_kind(s), t) {
        (Some(EnumKind::Boolean), EnumBody::Boolean(b)) => placed_at(b.base, s.span, text)
            && b.explicit_type == (s.explicit_type is Some) && b.has_unknown_members
            == s.has_unknown_members && b.members@.len() == ms.len() && forall|i: int|
            0 <= i < ms.len() ==> bool_member_rep(b.members@[i], #[trigger] ms[i], text),
        (Some(EnumKind::Number), EnumBody::Number(b)) => placed_at(b.base, s.span, text)
            && b.explicit_type == (s.explicit_type is Some) && b.has_unknown_members
            == s.has_unknown_members && b.members@.len() == ms.len() && forall|i: int|
            0 <= i < ms.len() ==> number_member_rep(b.members@[i], #[trigger] ms[i], text),
        (Some(EnumKind::String), EnumBody::String(b)) => placed_at(b.base, s.span, text)
            && b.explicit_type == (s.explicit_type is Some) && b.has_unknown_members
            == s.has_unknown_members && b.members@.len() == ms.len() && forall|i: int|
            0 <= i < ms.len() ==> string_member_rep(b.members@[i], #[trigger] ms[i], text),
        (Some(EnumKind::Symbol), EnumBody::Symbol(b)) => placed_at(b.base, s.span, text)
            && b.has_unknown_members == s.has_unknown_members && b.members@.len() == ms.len()
            && forall|i: int|
            0 <= i < ms.len() ==> defaulted_member_rep(b.members@[i], #[trigger] ms[i], text),
        _ => false,
    }
}

pub open spec fn enum_rep(t: EnumDeclaration, s: EnumDecl, text: Seq<u8>) -> bool {
    placed_at(t.base, s.span, text) && ident_rep(t.id, s.id, text) && enum_body_rep(t.body, s, text)
}

pub open spec fn specifier_rep(t: ModuleSpecifier, s: source::ImportSpecifier, text: Seq<u8>) -> bool {
    match (t, s) {
        (ModuleSpecifier::ImportSpecifier(y), source::ImportSpecifier::Named(x)) => placed_at(
            y.base,
            x.span,
            text,
        ) && ident_rep(y.local, x.local, text) && match x.imported {
            Some(i) => ident_rep(y.imported, i, text),
            None => ident_rep(y.imported, x.local, text),
        },
        (
            ModuleSpecifier::ImportDefaultSpecifier(y),
            source::ImportSpecifier::Default(x),
        ) => placed_at(y.base, x.span, text) && ident_rep(y.local, x.local, text),
        (
            ModuleSpecifier::ImportNamespaceSpecifier(y),
            source::ImportSpecifier::Namespace(x),
        ) => placed_at(y.base, x.span, text) && ident_rep(y.local, x.local, text),
        _ => false,
    }
}

pub open spec fn import_rep(t: ImportDeclaration, s: ImportDecl, text: Seq<u8>) -> bool {
    placed_at(t.base, s.span, text) && str_rep(t.source, s.src, text) && t.specifiers@.len()
        == s.specifiers@.len() && forall|i: int|
        0 <= i < s.specifiers@.len() ==> specifier_rep(
            t.specifiers@[i],
            #[trigger] s.specifiers@[i],
            text,
        )
}

pub open spec fn item_rep(t: ModuleItemOutput, s: ModuleItem, text: Seq<u8>) -> bool {
    match (t, s) {
        (
            ModuleItemOutput::ModuleDecl(ModuleDeclaration::ImportDeclaration(y)),
            ModuleItem::ModuleDecl(ModuleDecl::Import(x)),
        ) => import_rep(y, x, text),
        (ModuleItemOutput::Stmt(y), ModuleItem::Stmt(x)) => stmt_rep(y, x, text),
        _ => false,
    }
}

} // verus!

verus! {

// -------------------------------------------------------------- conversions

/// The context after a conversion step: still well formed, same text.
pub open spec fn advanced(before: Context, after: Context) -> bool {
    after.wf() && after.text@ == before.text@ && after.registered@ == before.registered@
}

fn check_span(span: Span, ctx: &Context) -> (r: Result<(), ConvertError>)
    ensures
        r is Ok <==> span.within(ctx.text@.len()),
        r matches Err(e) ==> e == ConvertError::UnregisteredSpan(span),
{
    if span.lo <= span.hi && span.hi <= ctx.text.len() {
        Ok(())
    } else {
        Err(ConvertError::UnregisteredSpan(span))
    }
}

pub fn convert_ident(i: &Ident, ctx: &mut Context) -> (r: Result<Identifier, ConvertError>)
    requires
        old(ctx).wf(),
    ensures
        advanced(*old(ctx), *final(ctx)),
        r matches Err(e) ==> e != ConvertError::IllegalConversion,
        r is Ok <==> i.span.within(old(ctx).text@.len()),
        r matches Ok(t) ==> ident_rep(t, *i, old(ctx).text@),
        r matches Ok(t) ==> final(ctx).handed() == old(ctx).handed() + base_comments(t.base),
{
    check_span(i.span, ctx)?;
    let base = ctx.base(i.span);
    let optional = if i.optional {
        Some(true)
    } else {
        None
    };
    Ok(Identifier { base, name: i.sym.clone(), optional })
}

pub fn convert_str(s: &source::Str, ctx: &mut Context) -> (r: Result<StringLiteral, ConvertError>)
    requires
        old(ctx).wf(),
    ensures
        advanced(*old(ctx), *final(ctx)),
        r matches Err(e) ==> e != ConvertError::IllegalConversion,
        r is Ok <==> s.span.within(old(ctx).text@.len()),
        r matches Ok(t) ==> str_rep(t, *s, old(ctx).text@),
        r matches Ok(t) ==> final(ctx).handed() == old(ctx).handed() + base_comments(t.base),
{
    check_span(s.span, ctx)?;
    let base = ctx.base(s.span);
    Ok(StringLiteral { base, value: s.value.clone() })
}

pub fn convert_lit(l: &Lit, ctx: &mut Context) -> (r: Result<Literal, ConvertError>)
    requires
        old(ctx).wf(),
    ensures
        advanced(*old(ctx), *final(ctx)),
        r matches Err(e) ==> e != ConvertError::IllegalConversion,
        r is Ok <==> lit_span(*l).within(old(ctx).text@.len()),
        r matches Ok(t) ==> lit_rep(t, *l, old(ctx).text@),
        r matches Ok(t) ==> final(ctx).handed() == old(ctx).handed() + comments_in_literal(t),
{
    match l {
        Lit::Str(x) => Ok(Literal::StringLiteral(convert_str(x, ctx)?)),
        Lit::Bool(x) => {
            check_span(x.span, ctx)?;
            let base = ctx.base(x.span);
            Ok(Literal::BooleanLiteral(BooleanLiteral { base, value: x.value }))
        },
        Lit::Null(x) => {
            check_span(x.span, ctx)?;
            let base = ctx.base(x.span);
            Ok(Literal::NullLiteral(NullLiteral { base }))
        },
        Lit::Num(x) => {
            check_span(x.span, ctx)?;
            let base = ctx.base(x.span);
            Ok(Literal::NumericLiteral(NumericLiteral { base, value: x.value }))
        },
        Lit::Regex(x) => {
            check_span(x.span, ctx)?;
            let base = ctx.base(x.span);
            Ok(
                Literal::RegExpLiteral(
                    RegExpLiteral { base, pattern: x.exp.clone(), flags: x.flags.clone() },
                ),
            )
        },
    }
}

pub fn convert_expr(e: &Expr, ctx: &mut Context) -> (r: Result<Expression, ConvertError>)
    requires
        old(ctx).wf(),
    ensures
        advanced(*old(ctx), *final(ctx)),
        r matches Err(e) ==> e != ConvertError::IllegalConversion,
        r is Ok <==> expr_ok(*e, old(ctx).text@.len()),
        r matches Ok(t) ==> expr_rep(t, *e, old(ctx).text@),
        r matches Ok(t) ==> final(ctx).handed() == old(ctx).handed() + comments_in_expr(t),
    decreases e,
{
    let ghost text = ctx.text@;
    match e {
        Expr::This(x) => convert_expr_this(x, ctx),
        Expr::Array(x) => convert_expr_array(x, ctx),
        Expr::Object(x) => convert_expr_object(x, ctx),
        Expr::Fn(x) => convert_expr_fn(x, ctx),
        Expr::Arrow(x) => convert_expr_arrow(x, ctx),
        Expr::Unary(x) => convert_expr_unary(x, ctx),
        Expr::Update(x) => convert_expr_update(x, ctx),
        Expr::Bin(x) => convert_expr_bin(x, ctx),
        Expr::Assign(x) => convert_expr_assign(x, ctx),
        Expr::Member(x) => Ok(Expression::MemberExpression(convert_member(x, ctx)?)),
        Expr::Cond(x) => convert_expr_cond(x, ctx),
        Expr::Call(x) => convert_expr_call(x, ctx),
        Expr::New(x) => convert_expr_new(x, ctx),
        Expr::Sequence(x) => convert_expr_sequence(x, ctx),
        Expr::Ident(x) => Ok(Expression::Identifier(convert_ident(x, ctx)?)),
        Expr::Lit(x) => Ok(Expression::Literal(convert_lit(x, ctx)?)),
        Expr::Paren(x) => {
            check_span(x.span, ctx)?;
            let base = ctx.base(x.span);
            let expression = convert_expr(&x.expr, ctx)?;
            Ok(
                Expression::ParenthesizedExpression(
                    ParenthesizedExpression { base, expression: Box::new(expression) },
                ),
            )
        },
    }
}

fn convert_expr_this(x: &source::ThisExpr, ctx: &mut Context) -> (r: Result<Expression, ConvertError>)
    requires
        old(ctx).wf(),
    ensures
        advanced(*old(ctx), *final(ctx)),
        r matches Err(e) ==> e != ConvertError::IllegalConversion,
        r is Ok <==> expr_ok(Expr::This(*x), old(ctx).text@.len()),
        r matches Ok(t) ==> expr_rep(t, Expr::This(*x), old(ctx).text@),
        r matches Ok(t) ==> final(ctx).handed() == old(ctx).handed() + comments_in_expr(t),
    decreases x,
{
    let ghost text = ctx.text@;
    check_span(x.span, ctx)?;
    let base = ctx.base(x.span);
    Ok(Expression::ThisExpression(ThisExpression { base }))
}

fn convert_expr_array(x: &source::ArrayLit, ctx: &mut Context) -> (r: Result<Expression, ConvertError>)
    requires
        old(ctx).wf(),
    ensures
        advanced(*old(ctx), *final(ctx)),
        r matches Err(e) ==> e != ConvertError::IllegalConversion,
        r is Ok <==> expr_ok(Expr::Array(*x), old(ctx).text@.len()),
        r matches Ok(t) ==> expr_rep(t, Expr::Array(*x), old(ctx).text@),
        r matches Ok(t) ==> final(ctx).handed() == old(ctx).handed() + comments_in_expr(t),
    decreases x,
{
    let ghost text = ctx.text@;
    check_span(x.span, ctx)?;
    let base = ctx.base(x.span);
    let elements = convert_elements(&x.elems, ctx)?;
    Ok(Expression::ArrayExpression(ArrayExpression { base, elements }))
}

fn convert_expr_object(x: &source::ObjectLit, ctx: &mut Context) -> (r: Result<Expression, ConvertError>)
    requires
        old(ctx).wf(),
    ensures
        advanced(*old(ctx), *final(ctx)),
        r matches Err(e) ==> e != ConvertError::IllegalConversion,
        r is Ok <==> expr_ok(Expr::Object(*x), old(ctx).text@.len()),
        r matches Ok(t) ==> expr_rep(t, Expr::Object(*x), old(ctx).text@),
        r matches Ok(t) ==> final(ctx).handed() == old(ctx).handed() + comments_in_expr(t),
    decreases x,
{
    let ghost text = ctx.text@;
    check_span(x.span, ctx)?;
    let base = ctx.base(x.span);
    let properties = convert_props(&x.props, ctx)?;
    Ok(Expression::ObjectExpression(ObjectExpression { base, properties }))
}

fn convert_expr_fn(x: &source::FnExpr, ctx: &mut Context) -> (r: Result<Expression, ConvertError>)
    requires
        old(ctx).wf(),
    ensures
        advanced(*old(ctx), *final(ctx)),
        r matches Err(e) ==> e != ConvertError::IllegalConversion,
        r is Ok <==> expr_ok(Expr::Fn(*x), old(ctx).text@.len()),
        r matches Ok(t) ==> expr_rep(t, Expr::Fn(*x), old(ctx).text@),
        r matches Ok(t) ==> final(ctx).handed() == old(ctx).handed() + comments_in_expr(t),
    decreases x,
{
    let ghost text = ctx.text@;
    let (base, id, params, body) = convert_function(&x.function, &x.ident, ctx)?;
    Ok(
        Expression::FunctionExpression(
            FunctionExpression {
                base,
                id,
                params,
                body,
                generator: Some(x.function.is_generator),
                is_async: Some(x.function.is_async),
            },
        ),
    )
}

fn convert_expr_arrow(x: &source::ArrowExpr, ctx: &mut Context) -> (r: Result<Expression, ConvertError>)
    requires
        old(ctx).wf(),
    ensures
        advanced(*old(ctx), *final(ctx)),
        r matches Err(e) ==> e != ConvertError::IllegalConversion,
        r is Ok <==> expr_ok(Expr::Arrow(*x), old(ctx).text@.len()),
        r matches Ok(t) ==> expr_rep(t, Expr::Arrow(*x), old(ctx).text@),
        r matches Ok(t) ==> final(ctx).handed() == old(ctx).handed() + comments_in_expr(t),
    decreases x,
{
    let ghost text = ctx.text@;
    check_span(x.span, ctx)?;
    let base = ctx.base(x.span);
    let params = convert_params(&x.params, ctx)?;
    let (body, expression) = match &x.body {
        BlockStmtOrExpr::BlockStmt(b) => (ArrowFunctionBody::BlockStatement(convert_block(b, ctx)?), false),
        BlockStmtOrExpr::Expr(e) => (ArrowFunctionBody::Expression(Box::new(convert_expr(e, ctx)?)), true),
    };
    Ok(
        Expression::ArrowFunctionExpression(
            ArrowFunctionExpression {
                base,
                params,
                body,
                is_async: x.is_async,
                expression,
                generator: x.is_generator,
            },
        ),
    )
}

fn convert_expr_unary(x: &source::UnaryExpr, ctx: &mut Context) -> (r: Result<Expression, ConvertError>)
    requires
        old(ctx).wf(),
    ensures
        advanced(*old(ctx), *final(ctx)),
        r matches Err(e) ==> e != ConvertError::IllegalConversion,
        r is Ok <==> expr_ok(Expr::Unary(*x), old(ctx).text@.len()),
        r matches Ok(t) ==> expr_rep(t, Expr::Unary(*x), old(ctx).text@),
        r matches Ok(t) ==> final(ctx).handed() == old(ctx).handed() + comments_in_expr(t),
    decreases x,
{
    let ghost text = ctx.text@;
    check_span(x.span, ctx)?;
    let base = ctx.base(x.span);
    let argument = convert_expr(&x.arg, ctx)?;
    Ok(
        Expression::UnaryExpression(
            UnaryExpression {
                base,
                operator: convert_unary_op(x.op),
                argument: Box::new(argument),
                prefix: true,
            },
        ),
    )
}

fn convert_expr_update(x: &source::UpdateExpr, ctx: &mut Context) -> (r: Result<Expression, ConvertError>)
    requires
        old(ctx).wf(),
    ensures
        advanced(*old(ctx), *final(ctx)),
        r matches Err(e) ==> e != ConvertError::IllegalConversion,
        r is Ok <==> expr_ok(Expr::Update(*x), old(ctx).text@.len()),
        r matches Ok(t) ==> expr_rep(t, Expr::Update(*x), old(ctx).text@),
        r matches Ok(t) ==> final(ctx).handed() == old(ctx).handed() + comments_in_expr(t),
    decreases x,
{
    let ghost text = ctx.text@;
    check_span(x.span, ctx)?;
    let base = ctx.base(x.span);
    let argument = convert_expr(&x.arg, ctx)?;
    let operator = match x.op {
        source::UpdateOp::PlusPlus => ops::UpdateOp::Increment,
        source::UpdateOp::MinusMinus => ops::UpdateOp::Decrement,
    };
    Ok(
        Expression::UpdateExpression(
            UpdateExpression {
                base,
                operator,
                argument: Box::new(argument),
                prefix: x.prefix,
            },
        ),
    )
}

fn convert_expr_bin(x: &source::BinExpr, ctx: &mut Context) -> (r: Result<Expression, ConvertError>)
    requires
        old(ctx).wf(),
    ensures
        advanced(*old(ctx), *final(ctx)),
        r matches Err(e) ==> e != ConvertError::IllegalConversion,
        r is Ok <==> expr_ok(Expr::Bin(*x), old(ctx).text@.len()),
        r matches Ok(t) ==> expr_rep(t, Expr::Bin(*x), old(ctx).text@),
        r matches Ok(t) ==> final(ctx).handed() == old(ctx).handed() + comments_in_expr(t),
    decreases x,
{
    let ghost text = ctx.text@;
    check_span(x.span, ctx)?;
    let base = ctx.base(x.span);
    let left = convert_expr(&x.left, ctx)?;
    let right = convert_expr(&x.right, ctx)?;
    match classify_binary(x.op) {
        Ok(operator) => Ok(
            Expression::Binary(
                Binary::BinaryExpression(
                    BinaryExpression {
                        base,
                        operator,
                        left: Box::new(BindaryLeft::Expression(left)),
                        right: Box::new(right),
                    },
                ),
            ),
        ),
        Err(operator) => Ok(
            Expression::Binary(
                Binary::LogicalExpression(
                    LogicalExpression {
                        base,
                        operator,
                        left: Box::new(left),
                        right: Box::new(right),
                    },
                ),
            ),
        ),
    }
}

fn convert_expr_assign(x: &source::AssignExpr, ctx: &mut Context) -> (r: Result<Expression, ConvertError>)
    requires
        old(ctx).wf(),
    ensures
        advanced(*old(ctx), *final(ctx)),
        r matches Err(e) ==> e != ConvertError::IllegalConversion,
        r is Ok <==> expr_ok(Expr::Assign(*x), old(ctx).text@.len()),
        r matches Ok(t) ==> expr_rep(t, Expr::Assign(*x), old(ctx).text@),
        r matches Ok(t) ==> final(ctx).handed() == old(ctx).handed() + comments_in_expr(t),
    decreases x,
{
    let ghost text = ctx.text@;
    check_span(x.span, ctx)?;
    let base = ctx.base(x.span);
    let left = convert_pat(&x.left, ctx)?;
    let right = convert_expr(&x.right, ctx)?;
    Ok(
        Expression::AssignmentExpression(
            AssignmentExpression {
                base,
                operator: assign_operator(x.op),
                left: Box::new(left),
                right: Box::new(right),
            },
        ),
    )
}

fn convert_expr_cond(x: &source::CondExpr, ctx: &mut Context) -> (r: Result<Expression, ConvertError>)
    requires
        old(ctx).wf(),
    ensures
        advanced(*old(ctx), *final(ctx)),
        r matches Err(e) ==> e != ConvertError::IllegalConversion,
        r is Ok <==> expr_ok(Expr::Cond(*x), old(ctx).text@.len()),
        r matches Ok(t) ==> expr_rep(t, Expr::Cond(*x), old(ctx).text@),
        r matches Ok(t) ==> final(ctx).handed() == old(ctx).handed() + comments_in_expr(t),
    decreases x,
{
    let ghost text = ctx.text@;
    check_span(x.span, ctx)?;
    let base = ctx.base(x.span);
    let test = convert_expr(&x.test, ctx)?;
    let consequent = convert_expr(&x.cons, ctx)?;
    let alternate = convert_expr(&x.alt, ctx)?;
    Ok(
        Expression::ConditionalExpression(
            ConditionalExpression {
                base,
                test: Box::new(test),
                consequent: Box::new(consequent),
                alternate: Box::new(alternate),
            },
        ),
    )
}

fn convert_expr_call(x: &source::CallExpr, ctx: &mut Context) -> (r: Result<Expression, ConvertError>)
    requires
        old(ctx).wf(),
    ensures
        advanced(*old(ctx), *final(ctx)),
        r matches Err(e) ==> e != ConvertError::IllegalConversion,
        r is Ok <==> expr_ok(Expr::Call(*x), old(ctx).text@.len()),
        r matches Ok(t) ==> expr_rep(t, Expr::Call(*x), old(ctx).text@),
        r matches Ok(t) ==> final(ctx).handed() == old(ctx).handed() + comments_in_expr(t),
    decreases x,
{
    let ghost text = ctx.text@;
    check_span(x.span, ctx)?;
    let base = ctx.base(x.span);
    let callee = convert_expr(&x.callee, ctx)?;
    let arguments = convert_args(&x.args, ctx)?;
    Ok(
        Expression::CallExpression(
            CallExpression {
                base,
                callee: Box::new(Callee::Expression(callee)),
                arguments,
                optional: None,
            },
        ),
    )
}

fn convert_expr_new(x: &source::NewExpr, ctx: &mut Context) -> (r: Result<Expression, ConvertError>)
    requires
        old(ctx).wf(),
    ensures
        advanced(*old(ctx), *final(ctx)),
        r matches Err(e) ==> e != ConvertError::IllegalConversion,
        r is Ok <==> expr_ok(Expr::New(*x), old(ctx).text@.len()),
        r matches Ok(t) ==> expr_rep(t, Expr::New(*x), old(ctx).text@),
        r matches Ok(t) ==> final(ctx).handed() == old(ctx).handed() + comments_in_expr(t),
    decreases x,
{
    let ghost text = ctx.text@;
    check_span(x.span, ctx)?;
    let base = ctx.base(x.span);
    let callee = convert_expr(&x.callee, ctx)?;
    let arguments = match &x.args {
        Some(v) => convert_args(v, ctx)?,
        None => {
            let v: Vec<Arg> = Vec::new();
            assert(v@ =~= Seq::<Arg>::empty());
            assert(comments_in_args(v@) == Seq::<Comment>::empty());
            v
        },
    };
    Ok(
        Expression::NewExpression(
            NewExpression {
                base,
                callee: Box::new(Callee::Expression(callee)),
                arguments,
                optional: None,
            },
        ),
    )
}

fn convert_expr_sequence(x: &source::SeqExpr, ctx: &mut Context) -> (r: Result<Expression, ConvertError>)
    requires
        old(ctx).wf(),
    ensures
        advanced(*old(ctx), *final(ctx)),
        r matches Err(e) ==> e != ConvertError::IllegalConversion,
        r is Ok <==> expr_ok(Expr::Sequence(*x), old(ctx).text@.len()),
        r matches Ok(t) ==> expr_rep(t, Expr::Sequence(*x), old(ctx).text@),
        r matches Ok(t) ==> final(ctx).handed() == old(ctx).handed() + comments_in_expr(t),
    decreases x,
{
    let ghost text = ctx.text@;
    check_span(x.span, ctx)?;
    let base = ctx.base(x.span);
    let expressions = convert_exprs(&x.exprs, ctx)?;
    Ok(Expression::SequenceExpression(SequenceExpression { base, expressions }))
}

fn convert_key(k: &PropName, ctx: &mut Context) -> (r: Result<(ObjectKey, bool), ConvertError>)
    requires
        old(ctx).wf(),
    ensures
        advanced(*old(ctx), *final(ctx)),
        r matches Err(e) ==> e != ConvertError::IllegalConversion,
        r is Ok <==> key_ok(*k, old(ctx).text@.len()),
        r matches Ok(t) ==> key_rep(t.0, t.1, *k, old(ctx).text@),
        r matches Ok(t) ==> final(ctx).handed() == old(ctx).handed() + comments_in_key(t.0),
    decreases k,
{
    match k {
        PropName::Ident(i) => Ok((ObjectKey::Identifier(convert_ident(i, ctx)?), false)),
        PropName::Str(v) => Ok((ObjectKey::StringLiteral(convert_str(v, ctx)?), false)),
        PropName::Num(n) => {
            check_span(n.span, ctx)?;
            let base = ctx.base(n.span);
            Ok((ObjectKey::NumericLiteral(NumericLiteral { base, value: n.value }), false))
        },
        PropName::Computed(c) => Ok((ObjectKey::Expression(convert_expr(&c.expr, ctx)?), true)),
    }
}

fn convert_prop(p: &Prop, ctx: &mut Context) -> (r: Result<ObjectExpressionProp, ConvertError>)
    requires
        old(ctx).wf(),
    ensures
        advanced(*old(ctx), *final(ctx)),
        r matches Err(e) ==> e != ConvertError::IllegalConversion,
        r is Ok <==> prop_ok(*p, old(ctx).text@.len()),
        r matches Ok(t) ==> prop_rep(t, *p, old(ctx).text@),
        r matches Ok(t) ==> final(ctx).handed() == old(ctx).handed() + comments_in_prop(t),
    decreases p,
{
    match p {
        Prop::KeyValue(x) => {
            check_span(x.span, ctx)?;
            let base = ctx.base(x.span);
            let (key, computed) = convert_key(&x.key, ctx)?;
            let value = convert_expr(&x.value, ctx)?;
            Ok(
                ObjectExpressionProp::ObjectProperty(
                    ObjectProperty {
                        base,
                        key,
                        value: ObjectPropertyVal::Expression(value),
                        computed,
                        shorthand: false,
                    },
                ),
            )
        },
        Prop::Shorthand(i) => {
            check_span(i.span, ctx)?;
            let base = ctx.base(i.span);
            let key = convert_ident(i, ctx)?;
            let value = convert_ident(i, ctx)?;
            Ok(
                ObjectExpressionProp::ObjectProperty(
                    ObjectProperty {
                        base,
                        key: ObjectKey::Identifier(key),
                        value: ObjectPropertyVal::Expression(Expression::Identifier(value)),
                        computed: false,
                        shorthand: true,
                    },
                ),
            )
        },
        Prop::Method(x) => {
            check_span(x.function.span, ctx)?;
            let (base, _, params, body) = convert_function(&x.function, &None, ctx)?;
            let (key, computed) = convert_key(&x.key, ctx)?;
            let kind = match x.kind {
                MethodKind::Method => ops::ObjectKind::Method,
                MethodKind::Getter => ops::ObjectKind::Getter,
                MethodKind::Setter => ops::ObjectKind::Setter,
            };
            Ok(
                ObjectExpressionProp::ObjectMethod(
                    ObjectMethod {
                        base,
                        kind,
                        key,
                        params,
                        body,
                        computed,
                        generator: Some(x.function.is_generator),
                        is_async: Some(x.function.is_async),
                    },
                ),
            )
        },
    }
}

fn convert_exprs(v: &Vec<Expr>, ctx: &mut Context) -> (r: Result<Vec<Expression>, ConvertError>)
    requires
        old(ctx).wf(),
    ensures
        advanced(*old(ctx), *final(ctx)),
        r matches Err(e) ==> e != ConvertError::IllegalConversion,
        r is Ok <==> forall|i: int| 0 <= i < v@.len() ==> expr_ok(#[trigger] v@[i], old(ctx).text@.len()),
        r matches Ok(t) ==> t@.len() == v@.len() && forall|i: int|
            0 <= i < v@.len() ==> expr_rep(t@[i], #[trigger] v@[i], old(ctx).text@),
        r matches Ok(t) ==> final(ctx).handed() == old(ctx).handed() + comments_in_exprs(t@),
    decreases v,
{
    let ghost text = ctx.text@;
    let mut out: Vec<Expression> = Vec::new();
    let mut i: usize = 0;
    let ghost h0 = ctx.handed();
    while i < v.len()
        invariant
            ctx.wf(),
            ctx.text@ == text,
            old(ctx).text@ == text,
            ctx.registered@ == old(ctx).registered@,
            ctx.handed() == h0 + comments_in_exprs(out@),
            i <= v@.len(),
            out@.len() == i,
            forall|j: int| 0 <= j < i ==> expr_ok(#[trigger] v@[j], text.len()),
            forall|j: int| 0 <= j < i ==> expr_rep(out@[j], #[trigger] v@[j], text),
        decreases v@.len() - i,
    {
        let a = convert_expr(&v[i], ctx)?;
        let ghost prev = out@;
        out.push(a);
        assert(out@.subrange(0, out@.len() - 1) =~= prev);
        i = i + 1;
    }
    Ok(out)
}

fn convert_args(v: &Vec<Expr>, ctx: &mut Context) -> (r: Result<Vec<Arg>, ConvertError>)
    requires
        old(ctx).wf(),
    ensures
        advanced(*old(ctx), *final(ctx)),
        r matches Err(e) ==> e != ConvertError::IllegalConversion,
        r is Ok <==> forall|i: int| 0 <= i < v@.len() ==> expr_ok(#[trigger] v@[i], old(ctx).text@.len()),
        r matches Ok(t) ==> t@.len() == v@.len() && forall|i: int|
            0 <= i < v@.len() ==> match t@[i] {
                Arg::Expression(a) => expr_rep(a, #[trigger] v@[i], old(ctx).text@),
            },
        r matches Ok(t) ==> final(ctx).handed() == old(ctx).handed() + comments_in_args(t@),
    decreases v,
{
    let ghost text = ctx.text@;
    let mut out: Vec<Arg> = Vec::new();
    let mut i: usize = 0;
    let ghost h0 = ctx.handed();
    while i < v.len()
        invariant
            ctx.wf(),
            ctx.text@ == text,
            old(ctx).text@ == text,
            ctx.registered@ == old(ctx).registered@,
            ctx.handed() == h0 + comments_in_args(out@),
            i <= v@.len(),
            out@.len() == i,
            forall|j: int| 0 <= j < i ==> expr_ok(#[trigger] v@[j], text.len()),
            forall|j: int|
                0 <= j < i ==> match out@[j] {
                    Arg::Expression(a) => expr_rep(a, #[trigger] v@[j], text),
                },
        decreases v@.len() - i,
    {
        let a = convert_expr(&v[i], ctx)?;
        let ghost prev = out@;
        out.push(Arg::Expression(a));
        assert(out@.subrange(0, out@.len() - 1) =~= prev);
        i = i + 1;
    }
    Ok(out)
}

pub fn convert_member(m: &source::MemberExpr, ctx: &mut Context) -> (r: Result<
    MemberExpression,
    ConvertError,
>)
    requires
        old(ctx).wf(),
    ensures
        advanced(*old(ctx), *final(ctx)),
        r matches Err(e) ==> e != ConvertError::IllegalConversion,
        r is Ok <==> member_ok(*m, old(ctx).text@.len()),
        r matches Ok(t) ==> member_rep(t, *m, old(ctx).text@),
        r matches Ok(t) ==> final(ctx).handed() == old(ctx).handed() + comments_in_member(t),
    decreases m,
{
    check_span(m.span, ctx)?;
    let base = ctx.base(m.span);
    let object = convert_expr(&m.obj, ctx)?;
    let (property, computed) = match &m.prop {
        source::MemberProp::Ident(i) => (MemberProp::Identifier(convert_ident(i, ctx)?), false),
        source::MemberProp::Computed(c) => (MemberProp::Expression(convert_expr(&c.expr, ctx)?), true),
    };
    Ok(
        MemberExpression {
            base,
            object: Box::new(object),
            property: Box::new(property),
            computed,
            optional: None,
        },
    )
}

pub fn convert_pat(p: &Pat, ctx: &mut Context) -> (r: Result<LVal, ConvertError>)
    requires
        old(ctx).wf(),
    ensures
        advanced(*old(ctx), *final(ctx)),
        r matches Err(e) ==> e != ConvertError::IllegalConversion,
        r is Ok <==> pat_ok(*p, old(ctx).text@.len()),
        r matches Ok(t) ==> lval_rep(t, *p, old(ctx).text@),
        r matches Ok(t) ==> final(ctx).handed() == old(ctx).handed() + comments_in_lval(t),
    decreases p,
{
    match p {
        Pat::Ident(i) => Ok(LVal::Identifier(convert_ident(i, ctx)?)),
        Pat::Member(m) => Ok(LVal::MemberExpression(convert_member(m, ctx)?)),
        Pat::Rest(x) => {
            check_span(x.span, ctx)?;
            let base = ctx.base(x.span);
            let argument = convert_pat(&x.arg, ctx)?;
            Ok(LVal::RestElement(RestElement { base, argument: Box::new(argument) }))
        },
    }
}

pub fn convert_param(p: &ParamPat, ctx: &mut Context) -> (r: Result<Param, ConvertError>)
    requires
        old(ctx).wf(),
    ensures
        advanced(*old(ctx), *final(ctx)),
        r matches Err(e) ==> e != ConvertError::IllegalConversion,
        r is Ok <==> param_ok(*p, old(ctx).text@.len()),
        r matches Ok(t) ==> param_rep(t, *p, old(ctx).text@),
        r matches Ok(t) ==> final(ctx).handed() == old(ctx).handed() + comments_in_param(t),
    decreases p,
{
    match p {
        ParamPat::Ident(i) => Ok(Param::Identifier(convert_ident(i, ctx)?)),
        ParamPat::Rest(x) => {
            check_span(x.span, ctx)?;
            let base = ctx.base(x.span);
            let argument = convert_pat(&x.arg, ctx)?;
            Ok(Param::RestElement(RestElement { base, argument: Box::new(argument) }))
        },
    }
}

/// The envelope, name, parameters and body of a function, in that order.
fn convert_function(f: &source::Function, ident: &Option<Ident>, ctx: &mut Context) -> (r: Result<
    (BaseNode, Option<Identifier>, Vec<Param>, BlockStatement),
    ConvertError,
>)
    requires
        old(ctx).wf(),
    ensures
        advanced(*old(ctx), *final(ctx)),
        r matches Err(e) ==> e != ConvertError::IllegalConversion,
        r is Ok <==> function_ok(*f, old(ctx).text@.len()) && match *ident {
            Some(i) => i.span.within(old(ctx).text@.len()),
            None => true,
        },
        r matches Ok(t) ==> opt_ident_rep(t.1, *ident, old(ctx).text@) && function_rep(
            t.0,
            t.2,
            t.3,
            Some(f.is_generator),
            Some(f.is_async),
            *f,
            old(ctx).text@,
        ),
        r matches Ok(t) ==> final(ctx).handed() == old(ctx).handed() + (base_comments(t.0)
            + comments_in_opt_ident(t.1) + comments_in_params(t.2@) + comments_in_block(t.3)),
    decreases f,
{
    let ghost text = ctx.text@;
    check_span(f.span, ctx)?;
    let base = ctx.base(f.span);
    let id = match ident {
        Some(i) => Some(convert_ident(i, ctx)?),
        None => None,
    };
    let params = convert_params(&f.params, ctx)?;
    let body = convert_block(&f.body, ctx)?;
    Ok((base, id, params, body))
}

pub fn convert_block(b: &source::BlockStmt, ctx: &mut Context) -> (r: Result<
    BlockStatement,
    ConvertError,
>)
    requires
        old(ctx).wf(),
    ensures
        advanced(*old(ctx), *final(ctx)),
        r matches Err(e) ==> e != ConvertError::IllegalConversion,
        r is Ok <==> block_ok(*b, old(ctx).text@.len()),
        r matches Ok(t) ==> block_rep(t, *b, old(ctx).text@),
        r matches Ok(t) ==> final(ctx).handed() == old(ctx).handed() + comments_in_block(t),
    decreases b,
{
    check_span(b.span, ctx)?;
    let base = ctx.base(b.span);
    let body = convert_stmts(&b.stmts, ctx)?;
    Ok(BlockStatement { base, body, directives: Vec::new() })
}

fn convert_stmts(v: &Vec<Stmt>, ctx: &mut Context) -> (r: Result<Vec<Statement>, ConvertError>)
    requires
        old(ctx).wf(),
    ensures
        advanced(*old(ctx), *final(ctx)),
        r matches Err(e) ==> e != ConvertError::IllegalConversion,
        r is Ok <==> forall|i: int| 0 <= i < v@.len() ==> stmt_ok(#[trigger] v@[i], old(ctx).text@.len()),
        r matches Ok(t) ==> t@.len() == v@.len() && forall|i: int|
            0 <= i < v@.len() ==> stmt_rep(t@[i], #[trigger] v@[i], old(ctx).text@),
        r matches Ok(t) ==> final(ctx).handed() == old(ctx).handed() + comments_in_stmts(t@),
    decreases v,
{
    let ghost text = ctx.text@;
    let mut out: Vec<Statement> = Vec::new();
    let mut i: usize = 0;
    let ghost h0 = ctx.handed();
    while i < v.len()
        invariant
            ctx.wf(),
            ctx.text@ == text,
            old(ctx).text@ == text,
            ctx.registered@ == old(ctx).registered@,
            ctx.handed() == h0 + comments_in_stmts(out@),
            i <= v@.len(),
            out@.len() == i,
            forall|j: int| 0 <= j < i ==> stmt_ok(#[trigger] v@[j], text.len()),
            forall|j: int| 0 <= j < i ==> stmt_rep(out@[j], #[trigger] v@[j], text),
        decreases v@.len() - i,
    {
        let s = convert_stmt(&v[i], ctx)?;
        let ghost prev = out@;
        out.push(s);
        assert(out@.subrange(0, out@.len() - 1) =~= prev);
        i = i + 1;
    }
    Ok(out)
}

fn convert_opt_expr(e: &Option<Box<Expr>>, ctx: &mut Context) -> (r: Result<
    Option<Expression>,
    ConvertError,
>)
    requires
        old(ctx).wf(),
    ensures
        advanced(*old(ctx), *final(ctx)),
        r matches Err(e) ==> e != ConvertError::IllegalConversion,
        r is Ok <==> opt_expr_ok(*e, old(ctx).text@.len()),
        r matches Ok(t) ==> opt_expr_rep(t, *e, old(ctx).text@),
        r matches Ok(t) ==> final(ctx).handed() == old(ctx).handed() + comments_in_opt_expr(t),
    decreases e,
{
    match e {
        Some(x) => Ok(Some(convert_expr(x, ctx)?)),
        None => Ok(None),
    }
}

} // verus!

verus! {

pub fn convert_stmt(s: &Stmt, ctx: &mut Context) -> (r: Result<Statement, ConvertError>)
    requires
        old(ctx).wf(),
    ensures
        advanced(*old(ctx), *final(ctx)),
        r matches Err(e) ==> e != ConvertError::IllegalConversion,
        r is Ok <==> stmt_ok(*s, old(ctx).text@.len()),
        r matches Ok(t) ==> stmt_rep(t, *s, old(ctx).text@),
        r matches Ok(t) ==> final(ctx).handed() == old(ctx).handed() + comments_in_stmt(t),
    decreases s,
{
    let ghost text = ctx.text@;
    match s {
        Stmt::Expr(x) => convert_stmt_expr(x, ctx),
        Stmt::Block(x) => Ok(Statement::BlockStatement(convert_block(x, ctx)?)),
        Stmt::Empty(x) => convert_stmt_empty(x, ctx),
        Stmt::Debugger(x) => convert_stmt_debugger(x, ctx),
        Stmt::Return(x) => convert_stmt_return(x, ctx),
        Stmt::If(x) => convert_stmt_if(x, ctx),
        Stmt::While(x) => convert_stmt_while(x, ctx),
        Stmt::DoWhile(x) => convert_stmt_do_while(x, ctx),
        Stmt::Throw(x) => convert_stmt_throw(x, ctx),
        Stmt::Switch(x) => convert_stmt_switch(x, ctx),
        Stmt::Break(x) => convert_stmt_break(x, ctx),
        Stmt::Continue(x) => convert_stmt_continue(x, ctx),
        Stmt::Labeled(x) => convert_stmt_labeled(x, ctx),
        Stmt::For(x) => convert_stmt_for(x, ctx),
        Stmt::ForIn(x) => convert_stmt_for_in(x, ctx),
        Stmt::Try(x) => convert_stmt_try(x, ctx),
        Stmt::Decl(source::Decl::Var(x)) => Ok(Statement::VariableDeclaration(convert_var_decl(x, ctx)?)),
        Stmt::Decl(source::Decl::Fn(x)) => convert_stmt_fn_decl(x, ctx),
        Stmt::Decl(source::Decl::Enum(x)) => Ok(Statement::EnumDeclaration(convert_enum(x, ctx)?)),
    }
}

fn convert_stmt_expr(x: &source::ExprStmt, ctx: &mut Context) -> (r: Result<Statement, ConvertError>)
    requires
        old(ctx).wf(),
    ensures
        advanced(*old(ctx), *final(ctx)),
        r matches Err(e) ==> e != ConvertError::IllegalConversion,
        r is Ok <==> stmt_ok(Stmt::Expr(*x), old(ctx).text@.len()),
        r matches Ok(t) ==> stmt_rep(t, Stmt::Expr(*x), old(ctx).text@),
        r matches Ok(t) ==> final(ctx).handed() == old(ctx).handed() + comments_in_stmt(t),
    decreases x,
{
    let ghost text = ctx.text@;
    check_span(x.span, ctx)?;
    let base = ctx.base(x.span);
    let expression = convert_expr(&x.expr, ctx)?;
    Ok(Statement::ExpressionStatement(ExpressionStatement { base, expression }))
}

fn convert_stmt_empty(x: &source::EmptyStmt, ctx: &mut Context) -> (r: Result<Statement, ConvertError>)
    requires
        old(ctx).wf(),
    ensures
        advanced(*old(ctx), *final(ctx)),
        r matches Err(e) ==> e != ConvertError::IllegalConversion,
        r is Ok <==> stmt_ok(Stmt::Empty(*x), old(ctx).text@.len()),
        r matches Ok(t) ==> stmt_rep(t, Stmt::Empty(*x), old(ctx).text@),
        r matches Ok(t) ==> final(ctx).handed() == old(ctx).handed() + comments_in_stmt(t),
    decreases x,
{
    let ghost text = ctx.text@;
    check_span(x.span, ctx)?;
    let base = ctx.base(x.span);
    Ok(Statement::EmptyStatement(EmptyStatement { base }))
}

fn convert_stmt_debugger(x: &source::DebuggerStmt, ctx: &mut Context) -> (r: Result<Statement, ConvertError>)
    requires
        old(ctx).wf(),
    ensures
        advanced(*old(ctx), *final(ctx)),
        r matches Err(e) ==> e != ConvertError::IllegalConversion,
        r is Ok <==> stmt_ok(Stmt::Debugger(*x), old(ctx).text@.len()),
        r matches Ok(t) ==> stmt_rep(t, Stmt::Debugger(*x), old(ctx).text@),
        r matches Ok(t) ==> final(ctx).handed() == old(ctx).handed() + comments_in_stmt(t),
    decreases x,
{
    let ghost text = ctx.text@;
    check_span(x.span, ctx)?;
    let base = ctx.base(x.span);
    Ok(Statement::DebuggerStatement(DebuggerStatement { base }))
}

fn convert_stmt_return(x: &source::ReturnStmt, ctx: &mut Context) -> (r: Result<Statement, ConvertError>)
    requires
        old(ctx).wf(),
    ensures
        advanced(*old(ctx), *final(ctx)),
        r matches Err(e) ==> e != ConvertError::IllegalConversion,
        r is Ok <==> stmt_ok(Stmt::Return(*x), old(ctx).text@.len()),
        r matches Ok(t) ==> stmt_rep(t, Stmt::Return(*x), old(ctx).text@),
        r matches Ok(t) ==> final(ctx).handed() == old(ctx).handed() + comments_in_stmt(t),
    decreases x,
{
    let ghost text = ctx.text@;
    check_span(x.span, ctx)?;
    let base = ctx.base(x.span);
    let argument = convert_opt_expr(&x.arg, ctx)?;
    Ok(Statement::ReturnStatement(ReturnStatement { base, argument }))
}

fn convert_stmt_if(x: &source::IfStmt, ctx: &mut Context) -> (r: Result<Statement, ConvertError>)
    requires
        old(ctx).wf(),
    ensures
        advanced(*old(ctx), *final(ctx)),
        r matches Err(e) ==> e != ConvertError::IllegalConversion,
        r is Ok <==> stmt_ok(Stmt::If(*x), old(ctx).text@.len()),
        r matches Ok(t) ==> stmt_rep(t, Stmt::If(*x), old(ctx).text@),
        r matches Ok(t) ==> final(ctx).handed() == old(ctx).handed() + comments_in_stmt(t),
    decreases x,
{
    let ghost text = ctx.text@;
    check_span(x.span, ctx)?;
    let base = ctx.base(x.span);
    let test = convert_expr(&x.test, ctx)?;
    let consequent = convert_stmt(&x.cons, ctx)?;
    let alternate = match &x.alt {
        Some(a) => Some(Box::new(convert_stmt(a, ctx)?)),
        None => None,
    };
    Ok(
        Statement::IfStatement(
            IfStatement { base, test, consequent: Box::new(consequent), alternate },
        ),
    )
}

fn convert_stmt_while(x: &source::WhileStmt, ctx: &mut Context) -> (r: Result<Statement, ConvertError>)
    requires
        old(ctx).wf(),
    ensures
        advanced(*old(ctx), *final(ctx)),
        r matches Err(e) ==> e != ConvertError::IllegalConversion,
        r is Ok <==> stmt_ok(Stmt::While(*x), old(ctx).text@.len()),
        r matches Ok(t) ==> stmt_rep(t, Stmt::While(*x), old(ctx).text@),
        r matches Ok(t) ==> final(ctx).handed() == old(ctx).handed() + comments_in_stmt(t),
    decreases x,
{
    let ghost text = ctx.text@;
    check_span(x.span, ctx)?;
    let base = ctx.base(x.span);
    let test = convert_expr(&x.test, ctx)?;
    let body = convert_stmt(&x.body, ctx)?;
    Ok(Statement::WhileStatement(WhileStatement { base, test, body: Box::new(body) }))
}

fn convert_stmt_do_while(x: &source::DoWhileStmt, ctx: &mut Context) -> (r: Result<Statement, ConvertError>)
    requires
        old(ctx).wf(),
    ensures
        advanced(*old(ctx), *final(ctx)),
        r matches Err(e) ==> e != ConvertError::IllegalConversion,
        r is Ok <==> stmt_ok(Stmt::DoWhile(*x), old(ctx).text@.len()),
        r matches Ok(t) ==> stmt_rep(t, Stmt::DoWhile(*x), old(ctx).text@),
        r matches Ok(t) ==> final(ctx).handed() == old(ctx).handed() + comments_in_stmt(t),
    decreases x,
{
    let ghost text = ctx.text@;
    check_span(x.span, ctx)?;
    let base = ctx.base(x.span);
    let body = convert_stmt(&x.body, ctx)?;
    let test = convert_expr(&x.test, ctx)?;
    Ok(Statement::DoWhileStatement(DoWhileStatement { base, test, body: Box::new(body) }))
}

fn convert_stmt_throw(x: &source::ThrowStmt, ctx: &mut Context) -> (r: Result<Statement, ConvertError>)
    requires
        old(ctx).wf(),
    ensures
        advanced(*old(ctx), *final(ctx)),
        r matches Err(e) ==> e != ConvertError::IllegalConversion,
        r is Ok <==> stmt_ok(Stmt::Throw(*x), old(ctx).text@.len()),
        r matches Ok(t) ==> stmt_rep(t, Stmt::Throw(*x), old(ctx).text@),
        r matches Ok(t) ==> final(ctx).handed() == old(ctx).handed() + comments_in_stmt(t),
    decreases x,
{
    let ghost text = ctx.text@;
    check_span(x.span, ctx)?;
    let base = ctx.base(x.span);
    let argument = convert_expr(&x.arg, ctx)?;
    Ok(Statement::ThrowStatement(ThrowStatement { base, argument }))
}

fn convert_stmt_switch(x: &source::SwitchStmt, ctx: &mut Context) -> (r: Result<Statement, ConvertError>)
    requires
        old(ctx).wf(),
    ensures
        advanced(*old(ctx), *final(ctx)),
        r matches Err(e) ==> e != ConvertError::IllegalConversion,
        r is Ok <==> stmt_ok(Stmt::Switch(*x), old(ctx).text@.len()),
        r matches Ok(t) ==> stmt_rep(t, Stmt::Switch(*x), old(ctx).text@),
        r matches Ok(t) ==> final(ctx).handed() == old(ctx).handed() + comments_in_stmt(t),
    decreases x,
{
    let ghost text = ctx.text@;
    check_span(x.span, ctx)?;
    let base = ctx.base(x.span);
    let descriminant = convert_expr(&x.discriminant, ctx)?;
    let cases = convert_cases(&x.cases, ctx)?;
    Ok(Statement::SwitchStatement(SwitchStatement { base, descriminant, cases }))
}

fn convert_stmt_break(x: &source::BreakStmt, ctx: &mut Context) -> (r: Result<Statement, ConvertError>)
    requires
        old(ctx).wf(),
    ensures
        advanced(*old(ctx), *final(ctx)),
        r matches Err(e) ==> e != ConvertError::IllegalConversion,
        r is Ok <==> stmt_ok(Stmt::Break(*x), old(ctx).text@.len()),
        r matches Ok(t) ==> stmt_rep(t, Stmt::Break(*x), old(ctx).text@),
        r matches Ok(t) ==> final(ctx).handed() == old(ctx).handed() + comments_in_stmt(t),
    decreases x,
{
    let ghost text = ctx.text@;
    check_span(x.span, ctx)?;
    let base = ctx.base(x.span);
    let label = match &x.label {
        Some(i) => Some(convert_ident(i, ctx)?),
        None => None,
    };
    Ok(Statement::BreakStatement(BreakStatement { base, label }))
}

fn convert_stmt_continue(x: &source::ContinueStmt, ctx: &mut Context) -> (r: Result<Statement, ConvertError>)
    requires
        old(ctx).wf(),
    ensures
        advanced(*old(ctx), *final(ctx)),
        r matches Err(e) ==> e != ConvertError::IllegalConversion,
        r is Ok <==> stmt_ok(Stmt::Continue(*x), old(ctx).text@.len()),
        r matches Ok(t) ==> stmt_rep(t, Stmt::Continue(*x), old(ctx).text@),
        r matches Ok(t) ==> final(ctx).handed() == old(ctx).handed() + comments_in_stmt(t),
    decreases x,
{
    let ghost text = ctx.text@;
    check_span(x.span, ctx)?;
    let base = ctx.base(x.span);
    let label = match &x.label {
        Some(i) => Some(convert_ident(i, ctx)?),
        None => None,
    };
    Ok(Statement::ContinueStatement(ContinueStatement { base, label }))
}

fn convert_stmt_labeled(x: &source::LabeledStmt, ctx: &mut Context) -> (r: Result<Statement, ConvertError>)
    requires
        old(ctx).wf(),
    ensures
        advanced(*old(ctx), *final(ctx)),
        r matches Err(e) ==> e != ConvertError::IllegalConversion,
        r is Ok <==> stmt_ok(Stmt::Labeled(*x), old(ctx).text@.len()),
        r matches Ok(t) ==> stmt_rep(t, Stmt::Labeled(*x), old(ctx).text@),
        r matches Ok(t) ==> final(ctx).handed() == old(ctx).handed() + comments_in_stmt(t),
    decreases x,
{
    let ghost text = ctx.text@;
    check_span(x.span, ctx)?;
    let base = ctx.base(x.span);
    let label = convert_ident(&x.label, ctx)?;
    let body = convert_stmt(&x.body, ctx)?;
    Ok(Statement::LabeledStatement(LabeledStatement { base, label, body: Box::new(body) }))
}

#[verifier::spinoff_prover]
#[verifier::rlimit(100)]
fn convert_stmt_for(x: &source::ForStmt, ctx: &mut Context) -> (r: Result<Statement, ConvertError>)
    requires
        old(ctx).wf(),
    ensures
        advanced(*old(ctx), *final(ctx)),
        r matches Err(e) ==> e != ConvertError::IllegalConversion,
        r is Ok <==> stmt_ok(Stmt::For(*x), old(ctx).text@.len()),
        r matches Ok(t) ==> stmt_rep(t, Stmt::For(*x), old(ctx).text@),
        r matches Ok(t) ==> final(ctx).handed() == old(ctx).handed() + comments_in_stmt(t),
    decreases x,
{
    let ghost text = ctx.text@;
    check_span(x.span, ctx)?;
    let base = ctx.base(x.span);
    let init = convert_for_init(&x.init, ctx)?;
    let test = convert_opt_expr(&x.test, ctx)?;
    let update = convert_opt_expr(&x.update, ctx)?;
    let body = convert_stmt(&x.body, ctx)?;
    Ok(Statement::ForStatement(ForStatement { base, init, test, update, body: Box::new(body) }))
}

fn convert_stmt_for_in(x: &source::ForInStmt, ctx: &mut Context) -> (r: Result<Statement, ConvertError>)
    requires
        old(ctx).wf(),
    ensures
        advanced(*old(ctx), *final(ctx)),
        r matches Err(e) ==> e != ConvertError::IllegalConversion,
        r is Ok <==> stmt_ok(Stmt::ForIn(*x), old(ctx).text@.len()),
        r matches Ok(t) ==> stmt_rep(t, Stmt::ForIn(*x), old(ctx).text@),
        r matches Ok(t) ==> final(ctx).handed() == old(ctx).handed() + comments_in_stmt(t),
    decreases x,
{
    let ghost text = ctx.text@;
    check_span(x.span, ctx)?;
    let base = ctx.base(x.span);
    let left = convert_for_head(&x.left, ctx)?;
    let right = convert_expr(&x.right, ctx)?;
    let body = convert_stmt(&x.body, ctx)?;
    Ok(Statement::ForInStatement(ForInStatement { base, left, right, body: Box::new(body) }))
}

#[verifier::spinoff_prover]
#[verifier::rlimit(100)]
fn convert_stmt_try(x: &source::TryStmt, ctx: &mut Context) -> (r: Result<Statement, ConvertError>)
    requires
        old(ctx).wf(),
    ensures
        advanced(*old(ctx), *final(ctx)),
        r matches Err(e) ==> e != ConvertError::IllegalConversion,
        r is Ok <==> stmt_ok(Stmt::Try(*x), old(ctx).text@.len()),
        r matches Ok(t) ==> stmt_rep(t, Stmt::Try(*x), old(ctx).text@),
        r matches Ok(t) ==> final(ctx).handed() == old(ctx).handed() + comments_in_stmt(t),
    decreases x,
{
    let ghost text = ctx.text@;
    check_span(x.span, ctx)?;
    let base = ctx.base(x.span);
    let block = convert_block(&x.block, ctx)?;
    let handler = match &x.handler {
        Some(h) => Some(convert_catch(h, ctx)?),
        None => None,
    };
    let finalizer = match &x.finalizer {
        Some(f) => Some(convert_block(f, ctx)?),
        None => None,
    };
    Ok(Statement::TryStatement(TryStatement { base, block, handler, finalizer }))
}

fn convert_for_init(i: &Option<VarDeclOrExpr>, ctx: &mut Context) -> (r: Result<
    Option<ForInit>,
    ConvertError,
>)
    requires
        old(ctx).wf(),
    ensures
        advanced(*old(ctx), *final(ctx)),
        r matches Err(e) ==> e != ConvertError::IllegalConversion,
        r is Ok <==> for_init_ok(*i, old(ctx).text@.len()),
        r matches Ok(t) ==> for_init_rep(t, *i, old(ctx).text@),
        r matches Ok(t) ==> final(ctx).handed() == old(ctx).handed() + comments_in_for_init(t),
    decreases i,
{
    match i {
        Some(VarDeclOrExpr::VarDecl(v)) => Ok(Some(ForInit::VariableDeclaration(convert_var_decl(v, ctx)?))),
        Some(VarDeclOrExpr::Expr(e)) => Ok(Some(ForInit::Expression(convert_expr(e, ctx)?))),
        None => Ok(None),
    }
}

fn convert_for_head(h: &ForHead, ctx: &mut Context) -> (r: Result<ForInLeft, ConvertError>)
    requires
        old(ctx).wf(),
    ensures
        advanced(*old(ctx), *final(ctx)),
        r matches Err(e) ==> e != ConvertError::IllegalConversion,
        r is Ok <==> for_head_ok(*h, old(ctx).text@.len()),
        r matches Ok(t) ==> for_left_rep(t, *h, old(ctx).text@),
        r matches Ok(t) ==> final(ctx).handed() == old(ctx).handed() + comments_in_for_left(t),
    decreases h,
{
    match h {
        ForHead::VarDecl(v) => Ok(ForInLeft::VariableDeclaration(convert_var_decl(v, ctx)?)),
        ForHead::Pat(p) => Ok(ForInLeft::LVal(convert_pat(p, ctx)?)),
    }
}

fn convert_catch(h: &source::CatchClause, ctx: &mut Context) -> (r: Result<CatchClause, ConvertError>)
    requires
        old(ctx).wf(),
    ensures
        advanced(*old(ctx), *final(ctx)),
        r matches Err(e) ==> e != ConvertError::IllegalConversion,
        r is Ok <==> catch_ok(*h, old(ctx).text@.len()),
        r matches Ok(t) ==> catch_rep(t, *h, old(ctx).text@),
        r matches Ok(t) ==> final(ctx).handed() == old(ctx).handed() + comments_in_catch(t),
    decreases h,
{
    check_span(h.span, ctx)?;
    let base = ctx.base(h.span);
    let param = match &h.param {
        Some(i) => Some(CatchParam::Identifier(convert_ident(i, ctx)?)),
        None => None,
    };
    let body = convert_block(&h.body, ctx)?;
    Ok(CatchClause { base, param, body })
}

fn convert_stmt_fn_decl(x: &source::FnDecl, ctx: &mut Context) -> (r: Result<Statement, ConvertError>)
    requires
        old(ctx).wf(),
    ensures
        advanced(*old(ctx), *final(ctx)),
        r matches Err(e) ==> e != ConvertError::IllegalConversion,
        r is Ok <==> stmt_ok(Stmt::Decl(source::Decl::Fn(*x)), old(ctx).text@.len()),
        r matches Ok(t) ==> stmt_rep(t, Stmt::Decl(source::Decl::Fn(*x)), old(ctx).text@),
        r matches Ok(t) ==> final(ctx).handed() == old(ctx).handed() + comments_in_stmt(t),
    decreases x,
{
    let ghost text = ctx.text@;
    let ident = Some(x.ident.duplicate());
    let (base, id, params, body) = convert_function(&x.function, &ident, ctx)?;
    Ok(
        Statement::FunctionDeclaration(
            FunctionDeclaration {
                base,
                id,
                params,
                body,
                generator: Some(x.function.is_generator),
                is_async: Some(x.function.is_async),
            },
        ),
    )
}

fn convert_case(c: &source::SwitchCase, ctx: &mut Context) -> (r: Result<SwitchCase, ConvertError>)
    requires
        old(ctx).wf(),
    ensures
        advanced(*old(ctx), *final(ctx)),
        r matches Err(e) ==> e != ConvertError::IllegalConversion,
        r is Ok <==> case_ok(*c, old(ctx).text@.len()),
        r matches Ok(t) ==> case_rep(t, *c, old(ctx).text@),
        r matches Ok(t) ==> final(ctx).handed() == old(ctx).handed() + comments_in_case(t),
    decreases c,
{
    check_span(c.span, ctx)?;
    let base = ctx.base(c.span);
    let test = convert_opt_expr(&c.test, ctx)?;
    let consequent = convert_stmts(&c.cons, ctx)?;
    Ok(SwitchCase { base, test, consequent })
}

fn convert_declarator(d: &VarDeclarator, ctx: &mut Context) -> (r: Result<
    VariableDeclarator,
    ConvertError,
>)
    requires
        old(ctx).wf(),
    ensures
        advanced(*old(ctx), *final(ctx)),
        r matches Err(e) ==> e != ConvertError::IllegalConversion,
        r is Ok <==> declarator_ok(*d, old(ctx).text@.len()),
        r matches Ok(t) ==> declarator_rep(t, *d, old(ctx).text@),
        r matches Ok(t) ==> final(ctx).handed() == old(ctx).handed() + comments_in_declarator(t),
    decreases d,
{
    check_span(d.span, ctx)?;
    let base = ctx.base(d.span);
    let id = convert_pat(&d.name, ctx)?;
    let init = match &d.init {
        Some(x) => Some(Box::new(convert_expr(x, ctx)?)),
        None => None,
    };
    let definite = if d.definite {
        Some(true)
    } else {
        None
    };
    Ok(VariableDeclarator { base, id, init, definite })
}

pub fn convert_var_decl(v: &VarDecl, ctx: &mut Context) -> (r: Result<
    VariableDeclaration,
    ConvertError,
>)
    requires
        old(ctx).wf(),
    ensures
        advanced(*old(ctx), *final(ctx)),
        r matches Err(e) ==> e != ConvertError::IllegalConversion,
        r is Ok <==> var_decl_ok(*v, old(ctx).text@.len()),
        r matches Ok(t) ==> var_decl_rep(t, *v, old(ctx).text@),
        r matches Ok(t) ==> final(ctx).handed() == old(ctx).handed() + comments_in_var_decl(t),
    decreases v,
{
    let ghost text = ctx.text@;
    check_span(v.span, ctx)?;
    let base = ctx.base(v.span);
    let declarations = convert_declarators(&v.decls, ctx)?;
    let kind = match v.kind {
        source::VarDeclKind::Var => ops::VariableDeclarationKind::Var,
        source::VarDeclKind::Let => ops::VariableDeclarationKind::Let,
        source::VarDeclKind::Const => ops::VariableDeclarationKind::Const,
    };
    let declare = if v.declare {
        Some(true)
    } else {
        None
    };
    Ok(VariableDeclaration { base, kind, declarations, declare })
}

} // verus!

verus! {

fn literal_kind(l: &Lit) -> (r: Option<EnumKind>)
    ensures
        r == lit_kind(*l),
{
    match l {
        Lit::Bool(_) => Some(EnumKind::Boolean),
        Lit::Num(_) => Some(EnumKind::Number),
        Lit::Str(_) => Some(EnumKind::String),
        _ => None,
    }
}

fn fits(k: EnumKind, m: &EnumMember) -> (r: bool)
    ensures
        r == member_fits(k, *m),
{
    match k {
        EnumKind::Boolean => matches!(m.init, Some(Lit::Bool(_))),
        EnumKind::Number => matches!(m.init, Some(Lit::Num(_))),
        EnumKind::String => match &m.init {
            None => true,
            Some(Lit::Str(_)) => true,
            _ => false,
        },
        EnumKind::Symbol => m.init.is_none(),
    }
}

fn first_initializer_kind(e: &EnumDecl) -> (r: Option<EnumKind>)
    ensures
        r == inferred_kind(e.members@, 0),
{
    let mut i: usize = 0;
    while i < e.members.len()
        invariant
            i <= e.members@.len(),
            inferred_kind(e.members@, 0) == inferred_kind(e.members@, i as int),
        decreases e.members@.len() - i,
    {
        match &e.members[i].init {
            Some(l) => {
                return literal_kind(l);
            },
            None => {
                i = i + 1;
            },
        }
    }
    Some(EnumKind::String)
}

/// The body shape of an enumeration, or `None` where its members fit none.
pub fn enum_body_kind(e: &EnumDecl) -> (r: Option<EnumKind>)
    ensures
        r == enum_kind(*e),
{
    let k = match e.explicit_type {
        Some(k) => k,
        None => match first_initializer_kind(e) {
            Some(k) => k,
            None => {
                return None;
            },
        },
    };
    let mut i: usize = 0;
    while i < e.members.len()
        invariant
            i <= e.members@.len(),
            chosen_kind(*e) == Some(k),
            forall|j: int| 0 <= j < i ==> member_fits(k, #[trigger] e.members@[j]),
        decreases e.members@.len() - i,
    {
        if !fits(k, &e.members[i]) {
            assert(!member_fits(k, e.members@[i as int]));
            return None;
        }
        i = i + 1;
    }
    Some(k)
}

} // verus!

verus! {

fn convert_bool_member(m: &EnumMember, ctx: &mut Context) -> (r: Result<EnumBooleanMember, ConvertError>)
    requires
        old(ctx).wf(),
        member_fits(EnumKind::Boolean, *m),
    ensures
        advanced(*old(ctx), *final(ctx)),
        r matches Err(e) ==> e != ConvertError::IllegalConversion,
        r is Ok <==> enum_member_ok(*m, old(ctx).text@.len()),
        r matches Ok(t) ==> bool_member_rep(t, *m, old(ctx).text@),
        r matches Ok(t) ==> final(ctx).handed() == old(ctx).handed() + comments_in_bool_member(t),
{
    check_span(m.span, ctx)?;
    let base = ctx.base(m.span);
    let id = convert_ident(&m.id, ctx)?;
    match &m.init {
        Some(Lit::Bool(b)) => {
            check_span(b.span, ctx)?;
            let ib = ctx.base(b.span);
            Ok(EnumBooleanMember { base, id, init: BooleanLiteral { base: ib, value: b.value } })
        },
        _ => Err(ConvertError::UnsupportedEnum(m.span)),
    }
}

fn convert_number_member(m: &EnumMember, ctx: &mut Context) -> (r: Result<EnumNumberMember, ConvertError>)
    requires
        old(ctx).wf(),
        member_fits(EnumKind::Number, *m),
    ensures
        advanced(*old(ctx), *final(ctx)),
        r matches Err(e) ==> e != ConvertError::IllegalConversion,
        r is Ok <==> enum_member_ok(*m, old(ctx).text@.len()),
        r matches Ok(t) ==> number_member_rep(t, *m, old(ctx).text@),
        r matches Ok(t) ==> final(ctx).handed() == old(ctx).handed() + comments_in_number_member(t),
{
    check_span(m.span, ctx)?;
    let base = ctx.base(m.span);
    let id = convert_ident(&m.id, ctx)?;
    match &m.init {
        Some(Lit::Num(b)) => {
            check_span(b.span, ctx)?;
            let ib = ctx.base(b.span);
            Ok(EnumNumberMember { base, id, init: NumericLiteral { base: ib, value: b.value } })
        },
        _ => Err(ConvertError::UnsupportedEnum(m.span)),
    }
}

fn convert_defaulted_member(m: &EnumMember, ctx: &mut Context) -> (r: Result<
    EnumDefaultedMember,
    ConvertError,
>)
    requires
        old(ctx).wf(),
        m.init is None,
    ensures
        advanced(*old(ctx), *final(ctx)),
        r matches Err(e) ==> e != ConvertError::IllegalConversion,
        r is Ok <==> enum_member_ok(*m, old(ctx).text@.len()),
        r matches Ok(t) ==> defaulted_member_rep(t, *m, old(ctx).text@),
        r matches Ok(t) ==> final(ctx).handed() == old(ctx).handed() + comments_in_defaulted_member(t),
{
    check_span(m.span, ctx)?;
    let base = ctx.base(m.span);
    let id = convert_ident(&m.id, ctx)?;
    Ok(EnumDefaultedMember { base, id })
}

fn convert_string_member(m: &EnumMember, ctx: &mut Context) -> (r: Result<
    EnumStringBodyMember,
    ConvertError,
>)
    requires
        old(ctx).wf(),
        member_fits(EnumKind::String, *m),
    ensures
        advanced(*old(ctx), *final(ctx)),
        r matches Err(e) ==> e != ConvertError::IllegalConversion,
        r is Ok <==> enum_member_ok(*m, old(ctx).text@.len()),
        r matches Ok(t) ==> string_member_rep(t, *m, old(ctx).text@),
        r matches Ok(t) ==> final(ctx).handed() == old(ctx).handed() + comments_in_string_member(t),
{
    match &m.init {
        Some(Lit::Str(v)) => {
            check_span(m.span, ctx)?;
            let base = ctx.base(m.span);
            let id = convert_ident(&m.id, ctx)?;
            let init = convert_str(v, ctx)?;
            Ok(EnumStringBodyMember::String(EnumStringMember { base, id, init }))
        },
        None => Ok(EnumStringBodyMember::Defaulted(convert_defaulted_member(m, ctx)?)),
        _ => Err(ConvertError::UnsupportedEnum(m.span)),
    }
}

fn convert_boolean_members(e: &EnumDecl, ctx: &mut Context) -> (r: Result<
    Vec<EnumBooleanMember>,
    ConvertError,
>)
    requires
        old(ctx).wf(),
        forall|j: int| 0 <= j < e.members@.len() ==> member_fits(EnumKind::Boolean, #[trigger] e.members@[j]),
    ensures
        advanced(*old(ctx), *final(ctx)),
        r matches Err(e) ==> e != ConvertError::IllegalConversion,
        r is Ok <==> forall|j: int|
            0 <= j < e.members@.len() ==> enum_member_ok(#[trigger] e.members@[j], old(ctx).text@.len()),
        r matches Ok(t) ==> t@.len() == e.members@.len() && forall|j: int|
            0 <= j < e.members@.len() ==> bool_member_rep(t@[j], #[trigger] e.members@[j], old(ctx).text@),
        r matches Ok(t) ==> final(ctx).handed() == old(ctx).handed() + comments_in_bool_members(t@),
{
    let ghost text = ctx.text@;
    let mut members: Vec<EnumBooleanMember> = Vec::new();
    let mut i: usize = 0;
    let ghost h0 = ctx.handed();
    while i < e.members.len()
        invariant
            ctx.wf(),
            ctx.text@ == text,
            old(ctx).text@ == text,
            ctx.registered@ == old(ctx).registered@,
            ctx.handed() == h0 + comments_in_bool_members(members@),
            forall|j: int| 0 <= j < e.members@.len() ==> member_fits(EnumKind::Boolean, #[trigger] e.members@[j]),
            i <= e.members@.len(),
            members@.len() == i,
            forall|j: int| 0 <= j < i ==> enum_member_ok(#[trigger] e.members@[j], text.len()),
            forall|j: int| 0 <= j < i ==> bool_member_rep(members@[j], #[trigger] e.members@[j], text),
        decreases e.members@.len() - i,
    {
        let m = convert_bool_member(&e.members[i], ctx)?;
        let ghost prev = members@;
        members.push(m);
        assert(members@.subrange(0, members@.len() - 1) =~= prev);
        i = i + 1;
    }
    Ok(members)
}

fn convert_number_members(e: &EnumDecl, ctx: &mut Context) -> (r: Result<
    Vec<EnumNumberMember>,
    ConvertError,
>)
    requires
        old(ctx).wf(),
        forall|j: int| 0 <= j < e.members@.len() ==> member_fits(EnumKind::Number, #[trigger] e.members@[j]),
    ensures
        advanced(*old(ctx), *final(ctx)),
        r matches Err(e) ==> e != ConvertError::IllegalConversion,
        r is Ok <==> forall|j: int|
            0 <= j < e.members@.len() ==> enum_member_ok(#[trigger] e.members@[j], old(ctx).text@.len()),
        r matches Ok(t) ==> t@.len() == e.members@.len() && forall|j: int|
            0 <= j < e.members@.len() ==> number_member_rep(t@[j], #[trigger] e.members@[j], old(ctx).text@),
        r matches Ok(t) ==> final(ctx).handed() == old(ctx).handed() + comments_in_number_members(t@),
{
    let ghost text = ctx.text@;
    let mut members: Vec<EnumNumberMember> = Vec::new();
    let mut i: usize = 0;
    let ghost h0 = ctx.handed();
    while i < e.members.len()
        invariant
            ctx.wf(),
            ctx.text@ == text,
            old(ctx).text@ == text,
            ctx.registered@ == old(ctx).registered@,
            ctx.handed() == h0 + comments_in_number_members(members@),
            forall|j: int| 0 <= j < e.members@.len() ==> member_fits(EnumKind::Number, #[trigger] e.members@[j]),
            i <= e.members@.len(),
            members@.len() == i,
            forall|j: int| 0 <= j < i ==> enum_member_ok(#[trigger] e.members@[j], text.len()),
            forall|j: int| 0 <= j < i ==> number_member_rep(members@[j], #[trigger] e.members@[j], text),
        decreases e.members@.len() - i,
    {
        let m = convert_number_member(&e.members[i], ctx)?;
        let ghost prev = members@;
        members.push(m);
        assert(members@.subrange(0, members@.len() - 1) =~= prev);
        i = i + 1;
    }
    Ok(members)
}

fn convert_string_members(e: &EnumDecl, ctx: &mut Context) -> (r: Result<
    Vec<EnumStringBodyMember>,
    ConvertError,
>)
    requires
        old(ctx).wf(),
        forall|j: int| 0 <= j < e.members@.len() ==> member_fits(EnumKind::String, #[trigger] e.members@[j]),
    ensures
        advanced(*old(ctx), *final(ctx)),
        r matches Err(e) ==> e != ConvertError::IllegalConversion,
        r is Ok <==> forall|j: int|
            0 <= j < e.members@.len() ==> enum_member_ok(#[trigger] e.members@[j], old(ctx).text@.len()),
        r matches Ok(t) ==> t@.len() == e.members@.len() && forall|j: int|
            0 <= j < e.members@.len() ==> string_member_rep(t@[j], #[trigger] e.members@[j], old(ctx).text@),
        r matches Ok(t) ==> final(ctx).handed() == old(ctx).handed() + comments_in_string_members(t@),
{
    let ghost text = ctx.text@;
    let mut members: Vec<EnumStringBodyMember> = Vec::new();
    let mut i: usize = 0;
    let ghost h0 = ctx.handed();
    while i < e.members.len()
        invariant
            ctx.wf(),
            ctx.text@ == text,
            old(ctx).text@ == text,
            ctx.registered@ == old(ctx).registered@,
            ctx.handed() == h0 + comments_in_string_members(members@),
            forall|j: int| 0 <= j < e.members@.len() ==> member_fits(EnumKind::String, #[trigger] e.members@[j]),
            i <= e.members@.len(),
            members@.len() == i,
            forall|j: int| 0 <= j < i ==> enum_member_ok(#[trigger] e.members@[j], text.len()),
            forall|j: int| 0 <= j < i ==> string_member_rep(members@[j], #[trigger] e.members@[j], text),
        decreases e.members@.len() - i,
    {
        let m = convert_string_member(&e.members[i], ctx)?;
        let ghost prev = members@;
        members.push(m);
        assert(members@.subrange(0, members@.len() - 1) =~= prev);
        i = i + 1;
    }
    Ok(members)
}

fn convert_symbol_members(e: &EnumDecl, ctx: &mut Context) -> (r: Result<
    Vec<EnumDefaultedMember>,
    ConvertError,
>)
    requires
        old(ctx).wf(),
        forall|j: int| 0 <= j < e.members@.len() ==> member_fits(EnumKind::Symbol, #[trigger] e.members@[j]),
    ensures
        advanced(*old(ctx), *final(ctx)),
        r matches Err(e) ==> e != ConvertError::IllegalConversion,
        r is Ok <==> forall|j: int|
            0 <= j < e.members@.len() ==> enum_member_ok(#[trigger] e.members@[j], old(ctx).text@.len()),
        r matches Ok(t) ==> t@.len() == e.members@.len() && forall|j: int|
            0 <= j < e.members@.len() ==> defaulted_member_rep(t@[j], #[trigger] e.members@[j], old(ctx).text@),
        r matches Ok(t) ==> final(ctx).handed() == old(ctx).handed() + comments_in_defaulted_members(t@),
{
    let ghost text = ctx.text@;
    let mut members: Vec<EnumDefaultedMember> = Vec::new();
    let mut i: usize = 0;
    let ghost h0 = ctx.handed();
    while i < e.members.len()
        invariant
            ctx.wf(),
            ctx.text@ == text,
            old(ctx).text@ == text,
            ctx.registered@ == old(ctx).registered@,
            ctx.handed() == h0 + comments_in_defaulted_members(members@),
            forall|j: int| 0 <= j < e.members@.len() ==> member_fits(EnumKind::Symbol, #[trigger] e.members@[j]),
            i <= e.members@.len(),
            members@.len() == i,
            forall|j: int| 0 <= j < i ==> enum_member_ok(#[trigger] e.members@[j], text.len()),
            forall|j: int| 0 <= j < i ==> defaulted_member_rep(members@[j], #[trigger] e.members@[j], text),
        decreases e.members@.len() - i,
    {
        let m = convert_defaulted_member(&e.members[i], ctx)?;
        let ghost prev = members@;
        members.push(m);
        assert(members@.subrange(0, members@.len() - 1) =~= prev);
        i = i + 1;
    }
    Ok(members)
}

/// Converts an enumeration; its body takes the shape that its members
/// call for, and an enumeration whose members fit no shape is refused.
pub fn convert_enum(e: &EnumDecl, ctx: &mut Context) -> (r: Result<EnumDeclaration, ConvertError>)
    requires
        old(ctx).wf(),
    ensures
        advanced(*old(ctx), *final(ctx)),
        r matches Err(e) ==> e != ConvertError::IllegalConversion,
        r is Ok <==> enum_ok(*e, old(ctx).text@.len()),
        r matches Ok(t) ==> enum_rep(t, *e, old(ctx).text@),
        enum_spans_ok(*e, old(ctx).text@.len()) && enum_kind(*e) is None ==> r == Err::<
            EnumDeclaration,
            ConvertError,
        >(ConvertError::UnsupportedEnum(e.span)),
        r matches Ok(t) ==> final(ctx).handed() == old(ctx).handed() + comments_in_enum(t),
{
    check_span(e.span, ctx)?;
    let kind = match enum_body_kind(e) {
        Some(k) => k,
        None => {
            if !enum_spans_within(e, ctx) {
                return Err(ConvertError::UnregisteredSpan(e.span));
            }
            return Err(ConvertError::UnsupportedEnum(e.span));
        },
    };
    let base = ctx.base(e.span);
    let id = convert_ident(&e.id, ctx)?;
    let body_base = ctx.base(e.span);
    let body = match kind {
        EnumKind::Boolean => EnumBody::Boolean(
            EnumBooleanBody {
                base: body_base,
                members: convert_boolean_members(e, ctx)?,
                explicit_type: e.explicit_type.is_some(),
                has_unknown_members: e.has_unknown_members,
            },
        ),
        EnumKind::Number => EnumBody::Number(
            EnumNumberBody {
                base: body_base,
                members: convert_number_members(e, ctx)?,
                explicit_type: e.explicit_type.is_some(),
                has_unknown_members: e.has_unknown_members,
            },
        ),
        EnumKind::String => EnumBody::String(
            EnumStringBody {
                base: body_base,
                members: convert_string_members(e, ctx)?,
                explicit_type: e.explicit_type.is_some(),
                has_unknown_members: e.has_unknown_members,
            },
        ),
        EnumKind::Symbol => EnumBody::Symbol(
            EnumSymbolBody {
                base: body_base,
                members: convert_symbol_members(e, ctx)?,
                has_unknown_members: e.has_unknown_members,
            },
        ),
    };
    Ok(EnumDeclaration { base, id, body })
}

fn enum_spans_within(e: &EnumDecl, ctx: &Context) -> (r: bool)
    ensures
        r == enum_spans_ok(*e, ctx.text@.len()),
{
    let len = ctx.text.len();
    if !(e.span.lo <= e.span.hi && e.span.hi <= len && e.id.span.lo <= e.id.span.hi
        && e.id.span.hi <= len) {
        return false;
    }
    let mut i: usize = 0;
    while i < e.members.len()
        invariant
            len == ctx.text@.len(),
            i <= e.members@.len(),
            forall|j: int| 0 <= j < i ==> enum_member_ok(#[trigger] e.members@[j], len as nat),
        decreases e.members@.len() - i,
    {
        let m = &e.members[i];
        if !(m.span.lo <= m.span.hi && m.span.hi <= len && m.id.span.lo <= m.id.span.hi
            && m.id.span.hi <= len) {
            return false;
        }
        let sp = match &m.init {
            Some(Lit::Str(x)) => x.span,
            Some(Lit::Bool(x)) => x.span,
            Some(Lit::Null(x)) => x.span,
            Some(Lit::Num(x)) => x.span,
            Some(Lit::Regex(x)) => x.span,
            None => m.span,
        };
        if !(sp.lo <= sp.hi && sp.hi <= len) {
            return false;
        }
        i = i + 1;
    }
    true
}

} // verus!

verus! {

fn convert_cases(v: &Vec<source::SwitchCase>, ctx: &mut Context) -> (r: Result<Vec<SwitchCase>, ConvertError>)
    requires
        old(ctx).wf(),
    ensures
        advanced(*old(ctx), *final(ctx)),
        r matches Err(e) ==> e != ConvertError::IllegalConversion,
        r is Ok <==> forall|i: int| 0 <= i < v@.len() ==> case_ok(#[trigger] v@[i], old(ctx).text@.len()),
        r matches Ok(t) ==> t@.len() == v@.len() && forall|i: int|
            0 <= i < v@.len() ==> case_rep(t@[i], #[trigger] v@[i], old(ctx).text@),
        r matches Ok(t) ==> final(ctx).handed() == old(ctx).handed() + comments_in_cases(t@),
    decreases v,
{
    let ghost text = ctx.text@;
    let mut out: Vec<SwitchCase> = Vec::new();
    let mut i: usize = 0;
    let ghost h0 = ctx.handed();
    while i < v.len()
        invariant
            ctx.wf(),
            ctx.text@ == text,
            old(ctx).text@ == text,
            ctx.registered@ == old(ctx).registered@,
            ctx.handed() == h0 + comments_in_cases(out@),
            i <= v@.len(),
            out@.len() == i,
            forall|j: int| 0 <= j < i ==> case_ok(#[trigger] v@[j], text.len()),
            forall|j: int| 0 <= j < i ==> case_rep(out@[j], #[trigger] v@[j], text),
        decreases v@.len() - i,
    {
        let c = convert_case(&v[i], ctx)?;
        let ghost prev = out@;
        out.push(c);
        assert(out@.subrange(0, out@.len() - 1) =~= prev);
        i = i + 1;
    }
    Ok(out)
}

fn convert_props(v: &Vec<Prop>, ctx: &mut Context) -> (r: Result<Vec<ObjectExpressionProp>, ConvertError>)
    requires
        old(ctx).wf(),
    ensures
        advanced(*old(ctx), *final(ctx)),
        r matches Err(e) ==> e != ConvertError::IllegalConversion,
        r is Ok <==> forall|i: int| 0 <= i < v@.len() ==> prop_ok(#[trigger] v@[i], old(ctx).text@.len()),
        r matches Ok(t) ==> t@.len() == v@.len() && forall|i: int|
            0 <= i < v@.len() ==> prop_rep(t@[i], #[trigger] v@[i], old(ctx).text@),
        r matches Ok(t) ==> final(ctx).handed() == old(ctx).handed() + comments_in_props(t@),
    decreases v,
{
    let ghost text = ctx.text@;
    let mut out: Vec<ObjectExpressionProp> = Vec::new();
    let mut i: usize = 0;
    let ghost h0 = ctx.handed();
    while i < v.len()
        invariant
            ctx.wf(),
            ctx.text@ == text,
            old(ctx).text@ == text,
            ctx.registered@ == old(ctx).registered@,
            ctx.handed() == h0 + comments_in_props(out@),
            i <= v@.len(),
            out@.len() == i,
            forall|j: int| 0 <= j < i ==> prop_ok(#[trigger] v@[j], text.len()),
            forall|j: int| 0 <= j < i ==> prop_rep(out@[j], #[trigger] v@[j], text),
        decreases v@.len() - i,
    {
        let c = convert_prop(&v[i], ctx)?;
        let ghost prev = out@;
        out.push(c);
        assert(out@.subrange(0, out@.len() - 1) =~= prev);
        i = i + 1;
    }
    Ok(out)
}

fn convert_params(v: &Vec<ParamPat>, ctx: &mut Context) -> (r: Result<Vec<Param>, ConvertError>)
    requires
        old(ctx).wf(),
    ensures
        advanced(*old(ctx), *final(ctx)),
        r matches Err(e) ==> e != ConvertError::IllegalConversion,
        r is Ok <==> forall|i: int| 0 <= i < v@.len() ==> param_ok(#[trigger] v@[i], old(ctx).text@.len()),
        r matches Ok(t) ==> t@.len() == v@.len() && forall|i: int|
            0 <= i < v@.len() ==> param_rep(t@[i], #[trigger] v@[i], old(ctx).text@),
        r matches Ok(t) ==> final(ctx).handed() == old(ctx).handed() + comments_in_params(t@),
    decreases v,
{
    let ghost text = ctx.text@;
    let mut out: Vec<Param> = Vec::new();
    let mut i: usize = 0;
    let ghost h0 = ctx.handed();
    while i < v.len()
        invariant
            ctx.wf(),
            ctx.text@ == text,
            old(ctx).text@ == text,
            ctx.registered@ == old(ctx).registered@,
            ctx.handed() == h0 + comments_in_params(out@),
            i <= v@.len(),
            out@.len() == i,
            forall|j: int| 0 <= j < i ==> param_ok(#[trigger] v@[j], text.len()),
            forall|j: int| 0 <= j < i ==> param_rep(out@[j], #[trigger] v@[j], text),
        decreases v@.len() - i,
    {
        let p = convert_param(&v[i], ctx)?;
        let ghost prev = out@;
        out.push(p);
        assert(out@.subrange(0, out@.len() - 1) =~= prev);
        i = i + 1;
    }
    Ok(out)
}

fn convert_declarators(v: &Vec<VarDeclarator>, ctx: &mut Context) -> (r: Result<Vec<VariableDeclarator>, ConvertError>)
    requires
        old(ctx).wf(),
    ensures
        advanced(*old(ctx), *final(ctx)),
        r matches Err(e) ==> e != ConvertError::IllegalConversion,
        r is Ok <==> forall|i: int| 0 <= i < v@.len() ==> declarator_ok(#[trigger] v@[i], old(ctx).text@.len()),
        r matches Ok(t) ==> t@.len() == v@.len() && forall|i: int|
            0 <= i < v@.len() ==> declarator_rep(t@[i], #[trigger] v@[i], old(ctx).text@),
        r matches Ok(t) ==> final(ctx).handed() == old(ctx).handed() + comments_in_declarators(t@),
    decreases v,
{
    let ghost text = ctx.text@;
    let mut out: Vec<VariableDeclarator> = Vec::new();
    let mut i: usize = 0;
    let ghost h0 = ctx.handed();
    while i < v.len()
        invariant
            ctx.wf(),
            ctx.text@ == text,
            old(ctx).text@ == text,
            ctx.registered@ == old(ctx).registered@,
            ctx.handed() == h0 + comments_in_declarators(out@),
            i <= v@.len(),
            out@.len() == i,
            forall|j: int| 0 <= j < i ==> declarator_ok(#[trigger] v@[j], text.len()),
            forall|j: int| 0 <= j < i ==> declarator_rep(out@[j], #[trigger] v@[j], text),
        decreases v@.len() - i,
    {
        let d = convert_declarator(&v[i], ctx)?;
        let ghost prev = out@;
        out.push(d);
        assert(out@.subrange(0, out@.len() - 1) =~= prev);
        i = i + 1;
    }
    Ok(out)
}

fn convert_elements(v: &Vec<Option<Expr>>, ctx: &mut Context) -> (r: Result<Vec<Option<ArrayEl>>, ConvertError>)
    requires
        old(ctx).wf(),
    ensures
        advanced(*old(ctx), *final(ctx)),
        r matches Err(e) ==> e != ConvertError::IllegalConversion,
        r is Ok <==> forall|i: int| 0 <= i < v@.len() ==> opt_ok(#[trigger] v@[i], old(ctx).text@.len()),
        r matches Ok(t) ==> t@.len() == v@.len() && forall|i: int|
            0 <= i < v@.len() ==> element_rep(t@[i], #[trigger] v@[i], old(ctx).text@),
        r matches Ok(t) ==> final(ctx).handed() == old(ctx).handed() + comments_in_elements(t@),
    decreases v,
{
    let ghost text = ctx.text@;
    let mut out: Vec<Option<ArrayEl>> = Vec::new();
    let mut i: usize = 0;
    let ghost h0 = ctx.handed();
    while i < v.len()
        invariant
            ctx.wf(),
            ctx.text@ == text,
            old(ctx).text@ == text,
            ctx.registered@ == old(ctx).registered@,
            ctx.handed() == h0 + comments_in_elements(out@),
            i <= v@.len(),
            out@.len() == i,
            forall|j: int| 0 <= j < i ==> opt_ok(#[trigger] v@[j], text.len()),
            forall|j: int| 0 <= j < i ==> element_rep(out@[j], #[trigger] v@[j], text),
        decreases v@.len() - i,
    {
        match &v[i] {
            Some(y) => {
                let a = convert_expr(y, ctx)?;
                let ghost prev = out@;
                let ghost ca = comments_in_expr(a);
                assert(ctx.handed() == h0 + comments_in_elements(prev) + ca);
                out.push(Some(ArrayEl::Expression(a)));
                assert(out@.subrange(0, out@.len() - 1) =~= prev);
                assert(comments_in_element(out@[out@.len() - 1]) == ca);
                assert(comments_in_elements(out@) == comments_in_elements(prev) + ca);
            },
            None => {
                let ghost prev = out@;
                out.push(None);
                assert(out@.subrange(0, out@.len() - 1) =~= prev);
                assert(comments_in_elements(out@) == comments_in_elements(prev) + comments_in_element(
                    None,
                ));
            },
        }
        i = i + 1;
    }
    Ok(out)
}

} // verus!

verus! {

// ------------------------------------------------------------------ programs

/// The interpreter directive spans the first line and holds it whole,
/// `#!` included.
pub open spec fn interpreter_rep(
    t: Option<InterpreterDirective>,
    shebang: Option<String>,
    span: Span,
    text: Seq<u8>,
) -> bool {
    match (t, shebang) {
        (Some(d), Some(v)) => d.value@ == "#!"@ + v@ && placed_at(d.base, first_line(text, span), text),
        (None, None) => true,
        _ => false,
    }
}

/// The envelope of a program: as any node's, but its inner slot holds the
/// comments that no node took.
pub open spec fn program_placed(b: BaseNode, span: Span, text: Seq<u8>) -> bool {
    &&& b.start == Some(span.lo)
    &&& b.end == Some(span.hi)
    &&& b.loc == Some(crate::context::loc_of(text, span))
    &&& b.extra is None
}

/// A script's item is always a plain statement.
pub open spec fn script_item_rep(t: ModuleItemOutput, s: Stmt, text: Seq<u8>) -> bool {
    match t {
        ModuleItemOutput::Stmt(y) => stmt_rep(y, s, text),
        _ => false,
    }
}

/// The program holds one output item per source item, in order, each
/// faithful to its source; it is tagged module or script, spans the whole
/// source, and carries the interpreter line where the source has one.
pub open spec fn program_rep(t: Program, s: source::Program, text: Seq<u8>) -> bool {
    &&& t.directives@.len() == 0
    &&& t.source_file@.len() == 0
    &&& match s {
        source::Program::Module(m) => {
            &&& t.source_type == ops::SourceType::Module
            &&& program_placed(t.base, m.span, text)
            &&& interpreter_rep(t.interpreter, m.shebang, m.span, text)
            &&& t.body@.len() == m.body@.len()
            &&& forall|i: int| 0 <= i < m.body@.len() ==> item_rep(t.body@[i], #[trigger] m.body@[i], text)
        },
        source::Program::Script(sc) => {
            &&& t.source_type == ops::SourceType::Script
            &&& program_placed(t.base, sc.span, text)
            &&& interpreter_rep(t.interpreter, sc.shebang, sc.span, text)
            &&& t.body@.len() == sc.body@.len()
            &&& forall|i: int|
                0 <= i < sc.body@.len() ==> script_item_rep(t.body@[i], #[trigger] sc.body@[i], text)
        },
    }
}

pub fn convert_specifier(s: &source::ImportSpecifier, ctx: &mut Context) -> (r: Result<
    ModuleSpecifier,
    ConvertError,
>)
    requires
        old(ctx).wf(),
    ensures
        advanced(*old(ctx), *final(ctx)),
        r matches Err(e) ==> e != ConvertError::IllegalConversion,
        r is Ok <==> specifier_ok(*s, old(ctx).text@.len()),
        r matches Ok(t) ==> specifier_rep(t, *s, old(ctx).text@),
        r matches Ok(t) ==> final(ctx).handed() == old(ctx).handed() + comments_in_specifier(t),
{
    match s {
        source::ImportSpecifier::Named(x) => {
            check_span(x.span, ctx)?;
            let base = ctx.base(x.span);
            let local = convert_ident(&x.local, ctx)?;
            let imported = match &x.imported {
                Some(i) => convert_ident(i, ctx)?,
                None => convert_ident(&x.local, ctx)?,
            };
            Ok(ModuleSpecifier::ImportSpecifier(ImportSpecifier { base, local, imported }))
        },
        source::ImportSpecifier::Default(x) => {
            check_span(x.span, ctx)?;
            let base = ctx.base(x.span);
            let local = convert_ident(&x.local, ctx)?;
            Ok(ModuleSpecifier::ImportDefaultSpecifier(ImportDefaultSpecifier { base, local }))
        },
        source::ImportSpecifier::Namespace(x) => {
            check_span(x.span, ctx)?;
            let base = ctx.base(x.span);
            let local = convert_ident(&x.local, ctx)?;
            Ok(ModuleSpecifier::ImportNamespaceSpecifier(ImportNamespaceSpecifier { base, local }))
        },
    }
}

pub fn convert_import(d: &ImportDecl, ctx: &mut Context) -> (r: Result<
    ImportDeclaration,
    ConvertError,
>)
    requires
        old(ctx).wf(),
    ensures
        advanced(*old(ctx), *final(ctx)),
        r matches Err(e) ==> e != ConvertError::IllegalConversion,
        r is Ok <==> import_ok(*d, old(ctx).text@.len()),
        r matches Ok(t) ==> import_rep(t, *d, old(ctx).text@),
        r matches Ok(t) ==> final(ctx).handed() == old(ctx).handed() + comments_in_import(t),
{
    let ghost text = ctx.text@;
    check_span(d.span, ctx)?;
    let base = ctx.base(d.span);
    let mut specifiers: Vec<ModuleSpecifier> = Vec::new();
    let mut i: usize = 0;
    let ghost h0 = ctx.handed();
    while i < d.specifiers.len()
        invariant
            ctx.wf(),
            ctx.text@ == text,
            old(ctx).text@ == text,
            ctx.registered@ == old(ctx).registered@,
            ctx.handed() == h0 + comments_in_specifiers(specifiers@),
            i <= d.specifiers@.len(),
            specifiers@.len() == i,
            forall|j: int| 0 <= j < i ==> specifier_ok(#[trigger] d.specifiers@[j], text.len()),
            forall|j: int|
                0 <= j < i ==> specifier_rep(specifiers@[j], #[trigger] d.specifiers@[j], text),
        decreases d.specifiers@.len() - i,
    {
        let s = convert_specifier(&d.specifiers[i], ctx)?;
        let ghost prev = specifiers@;
        specifiers.push(s);
        assert(specifiers@.subrange(0, specifiers@.len() - 1) =~= prev);
        i = i + 1;
    }
    let source = convert_str(&d.src, ctx)?;
    Ok(ImportDeclaration { base, specifiers, source })
}

impl ModuleItem {
    /// Converts a module body item, keeping apart module declarations and
    /// plain statements.
    pub fn babelify(&self, ctx: &mut Context) -> (r: Result<ModuleItemOutput, ConvertError>)
        requires
            old(ctx).wf(),
        ensures
            advanced(*old(ctx), *final(ctx)),
            r matches Err(e) ==> e != ConvertError::IllegalConversion,
            r is Ok <==> item_ok(*self, old(ctx).text@.len()),
            r matches Ok(t) ==> item_rep(t, *self, old(ctx).text@),
            r matches Ok(t) ==> final(ctx).handed() == old(ctx).handed() + comments_in_item(t),
    {
        match self {
            ModuleItem::ModuleDecl(ModuleDecl::Import(d)) => Ok(
                ModuleItemOutput::ModuleDecl(
                    ModuleDeclaration::ImportDeclaration(convert_import(d, ctx)?),
                ),
            ),
            ModuleItem::Stmt(s) => Ok(ModuleItemOutput::Stmt(convert_stmt(s, ctx)?)),
        }
    }
}

impl ModuleItemOutput {
    /// Narrows an item to a plain statement; a module declaration cannot
    /// stand where only statements may.
    pub fn into_statement(self) -> (r: Result<Statement, ConvertError>)
        ensures
            r is Ok <==> self is Stmt,
            r matches Ok(s) ==> self == ModuleItemOutput::Stmt(s),
            r matches Err(e) ==> e == ConvertError::IllegalConversion,
    {
        match self {
            ModuleItemOutput::Stmt(s) => Ok(s),
            _ => Err(ConvertError::IllegalConversion),
        }
    }
}

/// Narrows a list of items to a list of plain statements, in order; any
/// module declaration among them makes the whole narrowing fail.
pub fn statements_from_items(items: Vec<ModuleItemOutput>) -> (r: Result<
    Vec<Statement>,
    ConvertError,
>)
    ensures
        r is Ok <==> forall|i: int| 0 <= i < items@.len() ==> (#[trigger] items@[i]) is Stmt,
        r matches Ok(v) ==> v@.len() == items@.len() && forall|i: int|
            0 <= i < items@.len() ==> #[trigger] items@[i] == ModuleItemOutput::Stmt(v@[i]),
        r matches Err(e) ==> e == ConvertError::IllegalConversion,
{
    let ghost all = items@;
    let mut rest = items;
    let mut reversed: Vec<Statement> = Vec::new();
    while rest.len() > 0
        invariant
            all == items@,
            rest@ == all.take(rest@.len() as int),
            rest@.len() + reversed@.len() == all.len(),
            forall|j: int|
                0 <= j < reversed@.len() ==> all[all.len() - 1 - j] == ModuleItemOutput::Stmt(
                    #[trigger] reversed@[j],
                ),
        decreases rest@.len(),
    {
        let ghost before = rest@;
        let item = rest.pop().unwrap();
        proof {
            assert(item == all[rest@.len() as int]);
            assert(rest@ =~= all.take(rest@.len() as int));
        }
        match item.into_statement() {
            Ok(s) => reversed.push(s),
            Err(e) => {
                assert(!(items@[rest@.len() as int] is Stmt));
                return Err(e);
            },
        }
    }
    let mut out: Vec<Statement> = Vec::new();
    while reversed.len() > 0
        invariant
            all == items@,
            rest@.len() == 0,
            reversed@.len() + out@.len() == all.len(),
            forall|j: int|
                0 <= j < reversed@.len() ==> all[all.len() - 1 - j] == ModuleItemOutput::Stmt(
                    #[trigger] reversed@[j],
                ),
            forall|j: int| 0 <= j < out@.len() ==> all[j] == ModuleItemOutput::Stmt(#[trigger] out@[j]),
        decreases reversed@.len(),
    {
        let s = reversed.pop().unwrap();
        out.push(s);
    }
    assert forall|i: int| 0 <= i < items@.len() implies (#[trigger] items@[i]) is Stmt by {
        assert(all[i] == ModuleItemOutput::Stmt(out@[i]));
    }
    Ok(out)
}

impl source::Module {
    pub fn babelify(&self, ctx: &mut Context) -> (r: Result<Program, ConvertError>)
        requires
            old(ctx).wf(),
        ensures
            advanced(*old(ctx), *final(ctx)),
            r matches Err(e) ==> e != ConvertError::IllegalConversion,
            r is Ok <==> program_ok(source::Program::Module(*self), old(ctx).text@.len()),
            r matches Ok(t) ==> program_rep(t, source::Program::Module(*self), old(ctx).text@),
            r matches Ok(t) ==> final(ctx).handed() == old(ctx).handed() + comments_in_program(t),
            r is Ok ==> final(ctx).leading@.len() == 0 && final(ctx).trailing@.len() == 0,
    {
        let ghost text = ctx.text@;
        check_span(self.span, ctx)?;
        let mut base = ctx.base(self.span);
        let mut body: Vec<ModuleItemOutput> = Vec::new();
        let mut i: usize = 0;
        let ghost h0 = ctx.handed();
        while i < self.body.len()
            invariant
                ctx.wf(),
                ctx.text@ == text,
                old(ctx).text@ == text,
                ctx.registered@ == old(ctx).registered@,
                ctx.handed() == h0 + comments_in_items(body@),
                self.span.within(text.len()),
                i <= self.body@.len(),
                body@.len() == i,
                forall|j: int| 0 <= j < i ==> item_ok(#[trigger] self.body@[j], text.len()),
                forall|j: int| 0 <= j < i ==> item_rep(body@[j], #[trigger] self.body@[j], text),
            decreases self.body@.len() - i,
        {
            let item = self.body[i].babelify(ctx)?;
            let ghost prev = body@;
            body.push(item);
            assert(body@.subrange(0, body@.len() - 1) =~= prev);
            i = i + 1;
        }
        let interpreter = interpreter_of(&self.shebang, self.span, ctx);
        base.inner_comments = ctx.take_rest();
        Ok(
            Program {
                base,
                body,
                directives: Vec::new(),
                source_type: ops::SourceType::Module,
                interpreter,
                source_file: String::new(),
            },
        )
    }
}

impl source::Script {
    pub fn babelify(&self, ctx: &mut Context) -> (r: Result<Program, ConvertError>)
        requires
            old(ctx).wf(),
        ensures
            advanced(*old(ctx), *final(ctx)),
            r matches Err(e) ==> e != ConvertError::IllegalConversion,
            r is Ok <==> program_ok(source::Program::Script(*self), old(ctx).text@.len()),
            r matches Ok(t) ==> program_rep(t, source::Program::Script(*self), old(ctx).text@),
            r matches Ok(t) ==> final(ctx).handed() == old(ctx).handed() + comments_in_program(t),
            r is Ok ==> final(ctx).leading@.len() == 0 && final(ctx).trailing@.len() == 0,
    {
        let ghost text = ctx.text@;
        check_span(self.span, ctx)?;
        let mut base = ctx.base(self.span);
        let mut body: Vec<ModuleItemOutput> = Vec::new();
        let mut i: usize = 0;
        let ghost h0 = ctx.handed();
        while i < self.body.len()
            invariant
                ctx.wf(),
                ctx.text@ == text,
                old(ctx).text@ == text,
                ctx.registered@ == old(ctx).registered@,
                ctx.handed() == h0 + comments_in_items(body@),
                self.span.within(text.len()),
                i <= self.body@.len(),
                body@.len() == i,
                forall|j: int| 0 <= j < i ==> stmt_ok(#[trigger] self.body@[j], text.len()),
                forall|j: int|
                    0 <= j < i ==> script_item_rep(body@[j], #[trigger] self.body@[j], text),
            decreases self.body@.len() - i,
        {
            let s = convert_stmt(&self.body[i], ctx)?;
            let ghost converted = s;
            let ghost prev = body@;
            body.push(ModuleItemOutput::Stmt(s));
            assert(body@.subrange(0, body@.len() - 1) =~= prev);
            assert(body@[i as int] == ModuleItemOutput::Stmt(converted));
            assert(script_item_rep(body@[i as int], self.body@[i as int], text));
            i = i + 1;
        }
        let interpreter = interpreter_of(&self.shebang, self.span, ctx);
        base.inner_comments = ctx.take_rest();
        Ok(
            Program {
                base,
                body,
                directives: Vec::new(),
                source_type: ops::SourceType::Script,
                interpreter,
                source_file: String::new(),
            },
        )
    }
}

fn interpreter_of(shebang: &Option<String>, span: Span, ctx: &mut Context) -> (r: Option<
    InterpreterDirective,
>)
    requires
        old(ctx).wf(),
        span.within(old(ctx).text@.len()),
    ensures
        advanced(*old(ctx), *final(ctx)),
        interpreter_rep(r, *shebang, span, old(ctx).text@),
        final(ctx).handed() == old(ctx).handed() + match r {
            Some(d) => base_comments(d.base),
            None => Seq::empty(),
        },
{
    match shebang {
        Some(s) => {
            let line = ctx.shebang_span(span);
            let base = ctx.base(line);
            let mut value = "#!".to_owned();
            value.append(s.as_str());
            Some(InterpreterDirective { base, value })
        },
        None => None,
    }
}

impl source::Program {
    /// Converts a whole program: a module or a script, tagged as such.
    pub fn babelify(&self, ctx: &mut Context) -> (r: Result<Program, ConvertError>)
        requires
            old(ctx).wf(),
        ensures
            advanced(*old(ctx), *final(ctx)),
            r matches Err(e) ==> e != ConvertError::IllegalConversion,
            r is Ok <==> program_ok(*self, old(ctx).text@.len()),
            r matches Ok(t) ==> program_rep(t, *self, old(ctx).text@),
            r matches Ok(t) ==> final(ctx).handed() == old(ctx).handed() + comments_in_program(t),
            r is Ok ==> final(ctx).leading@.len() == 0 && final(ctx).trailing@.len() == 0,
            r is Ok ==> final(ctx).handed_out@.to_multiset() == final(ctx).registered@.to_multiset(),
            old(ctx).handed_out@.len() == 0 ==> (r matches Ok(t) ==> comments_in_program(t)
                == comment_nodes(final(ctx).handed_out@, final(ctx).text@)),
    {
        let ghost h0 = ctx.handed_out@;
        let ghost t0 = ctx.text@;
        proof {
            if h0.len() == 0 {
                assert(comment_nodes(h0, t0) =~= Seq::<Comment>::empty());
            }
        }
        let r = match self {
            source::Program::Module(m) => m.babelify(ctx),
            source::Program::Script(s) => s.babelify(ctx),
        };
        if r.is_ok() {
            proof {
                lemma_every_comment_handed_out_once(*ctx);
            }
        }
        r
    }
}

} // verus!

verus! {

// ------------------------------------------------------------ comment order
//
// The comment lists of an output tree, gathered node by node in the order
// in which the conversion takes each node's envelope: a node's own lists
// first, then its children's in the order they are converted.

pub open spec fn comments_in_ident(t: Identifier) -> Seq<Comment> {
    base_comments(t.base)
}

pub open spec fn comments_in_opt_ident(t: Option<Identifier>) -> Seq<Comment> {
    match t {
        Some(i) => base_comments(i.base),
        None => Seq::empty(),
    }
}

pub open spec fn comments_in_literal(t: Literal) -> Seq<Comment> {
    match t {
        Literal::StringLiteral(x) => base_comments(x.base),
        Literal::NumericLiteral(x) => base_comments(x.base),
        Literal::NullLiteral(x) => base_comments(x.base),
        Literal::BooleanLiteral(x) => base_comments(x.base),
        Literal::RegExpLiteral(x) => base_comments(x.base),
    }
}

pub open spec fn comments_in_expr(t: Expression) -> Seq<Comment>
    decreases t,
{
    match t {
        Expression::Identifier(x) => base_comments(x.base),
        Expression::Literal(x) => comments_in_literal(x),
        Expression::ThisExpression(x) => base_comments(x.base),
        Expression::ArrayExpression(x) => base_comments(x.base) + comments_in_elements(x.elements@),
        Expression::ObjectExpression(x) => base_comments(x.base) + comments_in_props(x.properties@),
        Expression::FunctionExpression(x) => base_comments(x.base) + comments_in_opt_ident(x.id)
            + comments_in_params(x.params@) + comments_in_block(x.body),
        Expression::ArrowFunctionExpression(x) => base_comments(x.base) + comments_in_params(
            x.params@,
        ) + match x.body {
            ArrowFunctionBody::BlockStatement(b) => comments_in_block(b),
            ArrowFunctionBody::Expression(e) => comments_in_expr(*e),
        },
        Expression::UnaryExpression(x) => base_comments(x.base) + comments_in_expr(*x.argument),
        Expression::UpdateExpression(x) => base_comments(x.base) + comments_in_expr(*x.argument),
        Expression::Binary(Binary::BinaryExpression(x)) => base_comments(x.base) + match *x.left {
            BindaryLeft::Expression(l) => comments_in_expr(l),
        } + comments_in_expr(*x.right),
        Expression::Binary(Binary::LogicalExpression(x)) => base_comments(x.base) + comments_in_expr(
            *x.left,
        ) + comments_in_expr(*x.right),
        Expression::AssignmentExpression(x) => base_comments(x.base) + comments_in_lval(*x.left)
            + comments_in_expr(*x.right),
        Expression::ConditionalExpression(x) => base_comments(x.base) + comments_in_expr(*x.test)
            + comments_in_expr(*x.consequent) + comments_in_expr(*x.alternate),
        Expression::CallExpression(x) => base_comments(x.base) + match *x.callee {
            Callee::Expression(c) => comments_in_expr(c),
        } + comments_in_args(x.arguments@),
        Expression::NewExpression(x) => base_comments(x.base) + match *x.callee {
            Callee::Expression(c) => comments_in_expr(c),
        } + comments_in_args(x.arguments@),
        Expression::MemberExpression(x) => comments_in_member(x),
        Expression::SequenceExpression(x) => base_comments(x.base) + comments_in_exprs(x.expressions@),
        Expression::ParenthesizedExpression(x) => base_comments(x.base) + comments_in_expr(
            *x.expression,
        ),
    }
}

pub open spec fn comments_in_opt_expr(t: Option<Expression>) -> Seq<Comment>
    decreases t,
{
    match t {
        Some(e) => comments_in_expr(e),
        None => Seq::empty(),
    }
}

pub open spec fn comments_in_exprs(s: Seq<Expression>) -> Seq<Comment>
    decreases s,
{
    if s.len() == 0 {
        Seq::empty()
    } else {
        comments_in_exprs(s.subrange(0, s.len() - 1)) + comments_in_expr(s[s.len() - 1])
    }
}

pub open spec fn comments_in_args(s: Seq<Arg>) -> Seq<Comment>
    decreases s,
{
    if s.len() == 0 {
        Seq::empty()
    } else {
        comments_in_args(s.subrange(0, s.len() - 1)) + match s[s.len() - 1] {
            Arg::Expression(e) => comments_in_expr(e),
        }
    }
}

pub open spec fn comments_in_element(t: Option<ArrayEl>) -> Seq<Comment>
    decreases t,
{
    match t {
        Some(ArrayEl::Expression(e)) => comments_in_expr(e),
        None => Seq::empty(),
    }
}

pub open spec fn comments_in_elements(s: Seq<Option<ArrayEl>>) -> Seq<Comment>
    decreases s,
{
    if s.len() == 0 {
        Seq::empty()
    } else {
        comments_in_elements(s.subrange(0, s.len() - 1)) + comments_in_element(s[s.len() - 1])
    }
}

pub open spec fn comments_in_key(t: ObjectKey) -> Seq<Comment>
    decreases t,
{
    match t {
        ObjectKey::Expression(e) => comments_in_expr(e),
        ObjectKey::Identifier(i) => base_comments(i.base),
        ObjectKey::StringLiteral(v) => base_comments(v.base),
        ObjectKey::NumericLiteral(n) => base_comments(n.base),
    }
}

pub open spec fn comments_in_prop(t: ObjectExpressionProp) -> Seq<Comment>
    decreases t,
{
    match t {
        ObjectExpressionProp::ObjectProperty(p) => base_comments(p.base) + comments_in_key(p.key)
            + match p.value {
            ObjectPropertyVal::Expression(e) => comments_in_expr(e),
            ObjectPropertyVal::PatternLike(PatternLike::Identifier(i)) => base_comments(i.base),
            ObjectPropertyVal::PatternLike(PatternLike::RestElement(r)) => comments_in_rest(r),
        },
        ObjectExpressionProp::ObjectMethod(m) => base_comments(m.base) + comments_in_params(m.params@)
            + comments_in_block(m.body) + comments_in_key(m.key),
    }
}

pub open spec fn comments_in_props(s: Seq<ObjectExpressionProp>) -> Seq<Comment>
    decreases s,
{
    if s.len() == 0 {
        Seq::empty()
    } else {
        comments_in_props(s.subrange(0, s.len() - 1)) + comments_in_prop(s[s.len() - 1])
    }
}

pub open spec fn comments_in_member(t: MemberExpression) -> Seq<Comment>
    decreases t,
{
    base_comments(t.base) + comments_in_expr(*t.object) + match *t.property {
        MemberProp::Identifier(i) => base_comments(i.base),
        MemberProp::Expression(e) => comments_in_expr(e),
    }
}

pub open spec fn comments_in_rest(t: RestElement) -> Seq<Comment>
    decreases t,
{
    base_comments(t.base) + comments_in_lval(*t.argument)
}

pub open spec fn comments_in_lval(t: LVal) -> Seq<Comment>
    decreases t,
{
    match t {
        LVal::Identifier(x) => base_comments(x.base),
        LVal::MemberExpression(x) => comments_in_member(x),
        LVal::RestElement(x) => comments_in_rest(x),
    }
}

pub open spec fn comments_in_param(t: Param) -> Seq<Comment>
    decreases t,
{
    match t {
        Param::Identifier(x) => base_comments(x.base),
        Param::RestElement(x) => comments_in_rest(x),
    }
}

pub open spec fn comments_in_params(s: Seq<Param>) -> Seq<Comment>
    decreases s,
{
    if s.len() == 0 {
        Seq::empty()
    } else {
        comments_in_params(s.subrange(0, s.len() - 1)) + comments_in_param(s[s.len() - 1])
    }
}

pub open spec fn comments_in_block(t: BlockStatement) -> Seq<Comment>
    decreases t,
{
    base_comments(t.base) + comments_in_stmts(t.body@)
}

pub open spec fn comments_in_stmts(s: Seq<Statement>) -> Seq<Comment>
    decreases s,
{
    if s.len() == 0 {
        Seq::empty()
    } else {
        comments_in_stmts(s.subrange(0, s.len() - 1)) + comments_in_stmt(s[s.len() - 1])
    }
}

pub open spec fn comments_in_case(t: SwitchCase) -> Seq<Comment>
    decreases t,
{
    base_comments(t.base) + comments_in_opt_expr(t.test) + comments_in_stmts(t.consequent@)
}

pub open spec fn comments_in_cases(s: Seq<SwitchCase>) -> Seq<Comment>
    decreases s,
{
    if s.len() == 0 {
        Seq::empty()
    } else {
        comments_in_cases(s.subrange(0, s.len() - 1)) + comments_in_case(s[s.len() - 1])
    }
}

pub open spec fn comments_in_declarator(t: VariableDeclarator) -> Seq<Comment>
    decreases t,
{
    base_comments(t.base) + comments_in_lval(t.id) + match t.init {
        Some(e) => comments_in_expr(*e),
        None => Seq::empty(),
    }
}

pub open spec fn comments_in_declarators(s: Seq<VariableDeclarator>) -> Seq<Comment>
    decreases s,
{
    if s.len() == 0 {
        Seq::empty()
    } else {
        comments_in_declarators(s.subrange(0, s.len() - 1)) + comments_in_declarator(s[s.len() - 1])
    }
}

pub open spec fn comments_in_var_decl(t: VariableDeclaration) -> Seq<Comment>
    decreases t,
{
    base_comments(t.base) + comments_in_declarators(t.declarations@)
}

pub open spec fn comments_in_for_init(t: Option<ForInit>) -> Seq<Comment>
    decreases t,
{
    match t {
        Some(ForInit::VariableDeclaration(v)) => comments_in_var_decl(v),
        Some(ForInit::Expression(e)) => comments_in_expr(e),
        None => Seq::empty(),
    }
}

pub open spec fn comments_in_for_left(t: ForInLeft) -> Seq<Comment>
    decreases t,
{
    match t {
        ForInLeft::VariableDeclaration(v) => comments_in_var_decl(v),
        ForInLeft::LVal(l) => comments_in_lval(l),
    }
}

pub open spec fn comments_in_catch(t: CatchClause) -> Seq<Comment>
    decreases t,
{
    base_comments(t.base) + match t.param {
        Some(CatchParam::Identifier(i)) => base_comments(i.base),
        None => Seq::empty(),
    } + comments_in_block(t.body)
}

pub open spec fn comments_in_stmt(t: Statement) -> Seq<Comment>
    decreases t,
{
    match t {
        Statement::ExpressionStatement(x) => base_comments(x.base) + comments_in_expr(x.expression),
        Statement::BlockStatement(x) => comments_in_block(x),
        Statement::EmptyStatement(x) => base_comments(x.base),
        Statement::DebuggerStatement(x) => base_comments(x.base),
        Statement::ReturnStatement(x) => base_comments(x.base) + comments_in_opt_expr(x.argument),
        Statement::IfStatement(x) => base_comments(x.base) + comments_in_expr(x.test)
            + comments_in_stmt(*x.consequent) + match x.alternate {
            Some(a) => comments_in_stmt(*a),
            None => Seq::empty(),
        },
        Statement::WhileStatement(x) => base_comments(x.base) + comments_in_expr(x.test)
            + comments_in_stmt(*x.body),
        Statement::DoWhileStatement(x) => base_comments(x.base) + comments_in_stmt(*x.body)
            + comments_in_expr(x.test),
        Statement::ThrowStatement(x) => base_comments(x.base) + comments_in_expr(x.argument),
        Statement::SwitchStatement(x) => base_comments(x.base) + comments_in_expr(x.descriminant)
            + comments_in_cases(x.cases@),
        Statement::BreakStatement(x) => base_comments(x.base) + comments_in_opt_ident(x.label),
        Statement::ContinueStatement(x) => base_comments(x.base) + comments_in_opt_ident(x.label),
        Statement::LabeledStatement(x) => base_comments(x.base) + base_comments(x.label.base)
            + comments_in_stmt(*x.body),
        Statement::ForStatement(x) => base_comments(x.base) + comments_in_for_init(x.init)
            + comments_in_opt_expr(x.test) + comments_in_opt_expr(x.update) + comments_in_stmt(
            *x.body,
        ),
        Statement::ForInStatement(x) => base_comments(x.base) + comments_in_for_left(x.left)
            + comments_in_expr(x.right) + comments_in_stmt(*x.body),
        Statement::TryStatement(x) => base_comments(x.base) + comments_in_block(x.block) + match x.handler {
            Some(h) => comments_in_catch(h),
            None => Seq::empty(),
        } + match x.finalizer {
            Some(f) => comments_in_block(f),
            None => Seq::empty(),
        },
        Statement::VariableDeclaration(x) => comments_in_var_decl(x),
        Statement::FunctionDeclaration(x) => base_comments(x.base) + comments_in_opt_ident(x.id)
            + comments_in_params(x.params@) + comments_in_block(x.body),
        Statement::EnumDeclaration(x) => comments_in_enum(x),
    }
}

pub open spec fn comments_in_string_member(t: EnumStringBodyMember) -> Seq<Comment> {
    match t {
        EnumStringBodyMember::String(m) => base_comments(m.base) + base_comments(m.id.base)
            + base_comments(m.init.base),
        EnumStringBodyMember::Defaulted(m) => base_comments(m.base) + base_comments(m.id.base),
    }
}

pub open spec fn comments_in_bool_member(m: EnumBooleanMember) -> Seq<Comment> {
    base_comments(m.base) + base_comments(m.id.base) + base_comments(m.init.base)
}

pub open spec fn comments_in_number_member(m: EnumNumberMember) -> Seq<Comment> {
    base_comments(m.base) + base_comments(m.id.base) + base_comments(m.init.base)
}

pub open spec fn comments_in_defaulted_member(m: EnumDefaultedMember) -> Seq<Comment> {
    base_comments(m.base) + base_comments(m.id.base)
}

pub open spec fn comments_in_bool_members(s: Seq<EnumBooleanMember>) -> Seq<Comment>
    decreases s.len(),
{
    if s.len() == 0 {
        Seq::empty()
    } else {
        comments_in_bool_members(s.subrange(0, s.len() - 1)) + comments_in_bool_member(s[s.len() - 1])
    }
}

pub open spec fn comments_in_number_members(s: Seq<EnumNumberMember>) -> Seq<Comment>
    decreases s.len(),
{
    if s.len() == 0 {
        Seq::empty()
    } else {
        comments_in_number_members(s.subrange(0, s.len() - 1)) + comments_in_number_member(s[s.len() - 1])
    }
}

pub open spec fn comments_in_string_members(s: Seq<EnumStringBodyMember>) -> Seq<Comment>
    decreases s.len(),
{
    if s.len() == 0 {
        Seq::empty()
    } else {
        comments_in_string_members(s.subrange(0, s.len() - 1)) + comments_in_string_member(s[s.len() - 1])
    }
}

pub open spec fn comments_in_defaulted_members(s: Seq<EnumDefaultedMember>) -> Seq<Comment>
    decreases s.len(),
{
    if s.len() == 0 {
        Seq::empty()
    } else {
        comments_in_defaulted_members(s.subrange(0, s.len() - 1)) + comments_in_defaulted_member(s[s.len() - 1])
    }
}

pub open spec fn comments_in_enum_body(t: EnumBody) -> Seq<Comment> {
    match t {
        EnumBody::Boolean(b) => base_comments(b.base) + comments_in_bool_members(b.members@),
        EnumBody::Number(b) => base_comments(b.base) + comments_in_number_members(b.members@),
        EnumBody::String(b) => base_comments(b.base) + comments_in_string_members(b.members@),
        EnumBody::Symbol(b) => base_comments(b.base) + comments_in_defaulted_members(b.members@),
    }
}

pub open spec fn comments_in_enum(t: EnumDeclaration) -> Seq<Comment> {
    base_comments(t.base) + base_comments(t.id.base) + comments_in_enum_body(t.body)
}

pub open spec fn comments_in_specifier(t: ModuleSpecifier) -> Seq<Comment> {
    match t {
        ModuleSpecifier::ImportSpecifier(x) => base_comments(x.base) + base_comments(x.local.base)
            + base_comments(x.imported.base),
        ModuleSpecifier::ImportDefaultSpecifier(x) => base_comments(x.base) + base_comments(
            x.local.base,
        ),
        ModuleSpecifier::ImportNamespaceSpecifier(x) => base_comments(x.base) + base_comments(
            x.local.base,
        ),
    }
}

pub open spec fn comments_in_specifiers(s: Seq<ModuleSpecifier>) -> Seq<Comment>
    decreases s.len(),
{
    if s.len() == 0 {
        Seq::empty()
    } else {
        comments_in_specifiers(s.subrange(0, s.len() - 1)) + comments_in_specifier(s[s.len() - 1])
    }
}

pub open spec fn comments_in_import(t: ImportDeclaration) -> Seq<Comment> {
    base_comments(t.base) + comments_in_specifiers(t.specifiers@) + base_comments(t.source.base)
}

pub open spec fn comments_in_item(t: ModuleItemOutput) -> Seq<Comment> {
    match t {
        ModuleItemOutput::ModuleDecl(ModuleDeclaration::ImportDeclaration(d)) => comments_in_import(d),
        ModuleItemOutput::Stmt(s) => comments_in_stmt(s),
    }
}

pub open spec fn comments_in_items(s: Seq<ModuleItemOutput>) -> Seq<Comment>
    decreases s.len(),
{
    if s.len() == 0 {
        Seq::empty()
    } else {
        comments_in_items(s.subrange(0, s.len() - 1)) + comments_in_item(s[s.len() - 1])
    }
}

/// A program's comments: its leading and trailing lists, its items', its
/// interpreter's, and last its inner list, which holds what no node took.
pub open spec fn comments_in_program(t: Program) -> Seq<Comment> {
    t.base.leading_comments@ + t.base.trailing_comments@ + comments_in_items(t.body@) + match t.interpreter {
        Some(d) => base_comments(d.base),
        None => Seq::empty(),
    } + t.base.inner_comments@
}

} // verus!
