//! Operator and keyword enumerations of the target schema, each with the
//! literal token that stands for it on the wire.
use vstd::prelude::*;

verus! {

/// A binary operator that is not a logical one.
#[derive(Debug, Clone, Copy, PartialEq, Eq, Structural)]
pub enum BinaryOp {
    Addition,
    Subtraction,
    Division,
    Remainder,
    Multiplication,
    Exponentiation,
    And,
    Or,
    RightShift,
    UnsignedRightShift,
    LeftShift,
    Xor,
    Equal,
    StrictEqual,
    NotEqual,
    StrictNotEqual,
    In,
    Instanceof,
    GreaterThan,
    LessThan,
    GreaterThanOrEqual,
    LessThanOrEqual,
}

impl BinaryOp {
    pub open spec fn token(self) -> Seq<char> {
        match self {
            BinaryOp::Addition => "+"@,
            BinaryOp::Subtraction => "-"@,
            BinaryOp::Division => "/"@,
            BinaryOp::Remainder => "%"@,
            BinaryOp::Multiplication => "*"@,
            BinaryOp::Exponentiation => "**"@,
            BinaryOp::And => "&"@,
            BinaryOp::Or => "|"@,
            BinaryOp::RightShift => ">>"@,
            BinaryOp::UnsignedRightShift => ">>>"@,
            BinaryOp::LeftShift => "<<"@,
            BinaryOp::Xor => "^"@,
            BinaryOp::Equal => "=="@,
            BinaryOp::StrictEqual => "==="@,
            BinaryOp::NotEqual => "!="@,
            BinaryOp::StrictNotEqual => "!=="@,
            BinaryOp::In => "in"@,
            BinaryOp::Instanceof => "instanceof"@,
            BinaryOp::GreaterThan => ">"@,
            BinaryOp::LessThan => "<"@,
            BinaryOp::GreaterThanOrEqual => ">="@,
            BinaryOp::LessThanOrEqual => "<="@,
        }
    }

    /// The operator's source token.
    pub fn as_str(&self) -> (r: &'static str)
        ensures
            r@ == self.token(),
    {
        match self {
            BinaryOp::Addition => "+",
            BinaryOp::Subtraction => "-",
            BinaryOp::Division => "/",
            BinaryOp::Remainder => "%",
            BinaryOp::Multiplication => "*",
            BinaryOp::Exponentiation => "**",
            BinaryOp::And => "&",
            BinaryOp::Or => "|",
            BinaryOp::RightShift => ">>",
            BinaryOp::UnsignedRightShift => ">>>",
            BinaryOp::LeftShift => "<<",
            BinaryOp::Xor => "^",
            BinaryOp::Equal => "==",
            BinaryOp::StrictEqual => "===",
            BinaryOp::NotEqual => "!=",
            BinaryOp::StrictNotEqual => "!==",
            BinaryOp::In => "in",
            BinaryOp::Instanceof => "instanceof",
            BinaryOp::GreaterThan => ">",
            BinaryOp::LessThan => "<",
            BinaryOp::GreaterThanOrEqual => ">=",
            BinaryOp::LessThanOrEqual => "<=",
        }
    }
}

/// A short-circuiting operator.
#[derive(Debug, Clone, Copy, PartialEq, Eq, Structural)]
pub enum LogicalOp {
    Or,
    And,
    Nullish,
}

impl LogicalOp {
    pub open spec fn token(self) -> Seq<char> {
        match self {
            LogicalOp::Or => "||"@,
            LogicalOp::And => "&&"@,
            LogicalOp::Nullish => "??"@,
        }
    }

    /// The operator's source token.
    pub fn as_str(&self) -> (r: &'static str)
        ensures
            r@ == self.token(),
    {
        match self {
            LogicalOp::Or => "||",
            LogicalOp::And => "&&",
            LogicalOp::Nullish => "??",
        }
    }
}

/// A prefix operator of a unary expression.
#[derive(Debug, Clone, Copy, PartialEq, Eq, Structural)]
pub enum UnaryOp {
    Void,
    Throw,
    Delete,
    LogicalNot,
    Plus,
    Negation,
    BitwiseNot,
    Typeof,
}

impl UnaryOp {
    pub open spec fn token(self) -> Seq<char> {
        match self {
            UnaryOp::Void => "void"@,
            UnaryOp::Throw => "throw"@,
            UnaryOp::Delete => "delete"@,
            UnaryOp::LogicalNot => "!"@,
            UnaryOp::Plus => "+"@,
            UnaryOp::Negation => "-"@,
            UnaryOp::BitwiseNot => "~"@,
            UnaryOp::Typeof => "typeof"@,
        }
    }

    /// The operator's source token.
    pub fn as_str(&self) -> (r: &'static str)
        ensures
            r@ == self.token(),
    {
        match self {
            UnaryOp::Void => "void",
            UnaryOp::Throw => "throw",
            UnaryOp::Delete => "delete",
            UnaryOp::LogicalNot => "!",
            UnaryOp::Plus => "+",
            UnaryOp::Negation => "-",
            UnaryOp::BitwiseNot => "~",
            UnaryOp::Typeof => "typeof",
        }
    }
}

/// An increment or decrement operator.
#[derive(Debug, Clone, Copy, PartialEq, Eq, Structural)]
pub enum UpdateOp {
    Increment,
    Decrement,
}

impl UpdateOp {
    pub open spec fn token(self) -> Seq<char> {
        match self {
            UpdateOp::Increment => "++"@,
            UpdateOp::Decrement => "--"@,
        }
    }

    /// The operator's source token.
    pub fn as_str(&self) -> (r: &'static str)
        ensures
            r@ == self.token(),
    {
        match self {
            UpdateOp::Increment => "++",
            UpdateOp::Decrement => "--",
        }
    }
}

/// The keyword of a variable declaration.
#[derive(Debug, Clone, Copy, PartialEq, Eq, Structural)]
pub enum VariableDeclarationKind {
    Var,
    Let,
    Const,
}

impl VariableDeclarationKind {
    pub open spec fn token(self) -> Seq<char> {
        match self {
            VariableDeclarationKind::Var => "var"@,
            VariableDeclarationKind::Let => "let"@,
            VariableDeclarationKind::Const => "const"@,
        }
    }

    /// The declaration keyword.
    pub fn as_str(&self) -> (r: &'static str)
        ensures
            r@ == self.token(),
    {
        match self {
            VariableDeclarationKind::Var => "var",
            VariableDeclarationKind::Let => "let",
            VariableDeclarationKind::Const => "const",
        }
    }
}

/// Whether a program was read as a module or as a script.
#[derive(Debug, Clone, Copy, PartialEq, Eq, Structural)]
pub enum SourceType {
    Script,
    Module,
}

impl SourceType {
    pub open spec fn token(self) -> Seq<char> {
        match self {
            SourceType::Script => "script"@,
            SourceType::Module => "module"@,
        }
    }

    /// The wire name of the source type.
    pub fn as_str(&self) -> (r: &'static str)
        ensures
            r@ == self.token(),
    {
        match self {
            SourceType::Script => "script",
            SourceType::Module => "module",
        }
    }
}

/// The kind of an object method.
#[derive(Debug, Clone, Copy, PartialEq, Eq, Structural)]
pub enum ObjectKind {
    Method,
    Getter,
    Setter,
}

impl ObjectKind {
    pub open spec fn token(self) -> Seq<char> {
        match self {
            ObjectKind::Method => "method"@,
            ObjectKind::Getter => "get"@,
            ObjectKind::Setter => "set"@,
        }
    }

    /// The wire name of the method kind.
    pub fn as_str(&self) -> (r: &'static str)
        ensures
            r@ == self.token(),
    {
        match self {
            ObjectKind::Method => "method",
            ObjectKind::Getter => "get",
            ObjectKind::Setter => "set",
        }
    }
}

} // verus!
