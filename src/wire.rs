//! The wire form of the output tree: one JSON object per node, with the
//! node's `type` first, the envelope's fields flattened beside the node's
//! own, camelCase keys, operators and keywords as their tokens, and every
//! optional field (a flag, a position, or a child such as an initializer,
//! an alternate or a name) left out when absent, never written as `null`.
//! Lists are always written, as `[]` when empty.
use vstd::prelude::*;
use crate::json::{Json, JsonV, json_entries, json_value, push_entry, values_of, group_json};
use crate::ast::{
    BaseNode, Comment, LineCol, Loc, Identifier, StringLiteral, Literal, Expression, ArrayEl,
    Binary, BindaryLeft, Callee, Arg, MemberProp, MemberExpression, LVal, Param, BlockStatement,
    Statement, SwitchCase, VariableDeclarator, VariableDeclaration, ModuleSpecifier,
    ImportDeclaration, ModuleItemOutput, ModuleDeclaration, InterpreterDirective, Program,
    Directive, RestElement, NumericLiteral, BooleanLiteral, ForInit, ForInLeft, CatchParam,
    CatchClause, IfStatement, SwitchStatement, LabeledStatement, ForStatement, ForInStatement,
    TryStatement, FunctionDeclaration, ObjectKey, ObjectPropertyVal, ObjectExpressionProp,
    ObjectExpression, PatternLike, ArrowFunctionBody, ArrowFunctionExpression,
};
use crate::decl::{
    EnumDeclaration, EnumBody, EnumStringBodyMember, EnumDefaultedMember, EnumBooleanMember,
    EnumNumberMember,
};

verus! {

broadcast use vstd::std_specs::vec::group_vec_axioms;

pub type Entries = Seq<(Seq<char>, JsonV)>;

/// Appends a field.
pub open spec fn with(s: Entries, key: Seq<char>, v: JsonV) -> Entries {
    s.push((key, v))
}

/// Appends a flag when it is present.
pub open spec fn with_flag(s: Entries, key: Seq<char>, o: Option<bool>) -> Entries {
    match o {
        Some(b) => s.push((key, JsonV::Bool(b))),
        None => s,
    }
}

/// Appends a field when it is present.
pub open spec fn with_opt(s: Entries, key: Seq<char>, o: Option<JsonV>) -> Entries {
    match o {
        Some(v) => s.push((key, v)),
        None => s,
    }
}

/// Appends an offset when it is present.
pub open spec fn with_offset(s: Entries, key: Seq<char>, o: Option<usize>) -> Entries {
    match o {
        Some(n) => s.push((key, JsonV::UInt(n as nat))),
        None => s,
    }
}

pub open spec fn wire_line_col(p: LineCol) -> JsonV {
    JsonV::Object(
        seq![("line"@, JsonV::UInt(p.line as nat)), ("column"@, JsonV::UInt(p.column as nat))],
    )
}

pub open spec fn wire_loc(l: Loc) -> JsonV {
    JsonV::Object(seq![("start"@, wire_line_col(l.start)), ("end"@, wire_line_col(l.end))])
}

pub open spec fn wire_comment(c: Comment) -> JsonV {
    let (tag, b) = match c {
        Comment::Block(b) => ("CommentBlock"@, b),
        Comment::Line(b) => ("CommentLine"@, b),
    };
    JsonV::Object(
        seq![
            ("type"@, JsonV::Str(tag)),
            ("value"@, JsonV::Str(b.value@)),
            ("start"@, JsonV::UInt(b.start as nat)),
            ("end"@, JsonV::UInt(b.end as nat)),
            ("loc"@, wire_loc(b.loc)),
        ],
    )
}

/// A comment list: always written, as `[]` when empty.
pub open spec fn wire_comments(v: Seq<Comment>) -> JsonV {
    JsonV::Array(Seq::new(v.len(), |i: int| wire_comment(v[i])))
}

/// The opening of a node's object: its type, then its envelope.
#[verifier::opaque]
pub open spec fn head(tag: Seq<char>, b: BaseNode) -> Entries {
    let s = seq![
        ("type"@, JsonV::Str(tag)),
        ("leadingComments"@, wire_comments(b.leading_comments@)),
        ("innerComments"@, wire_comments(b.inner_comments@)),
        ("trailingComments"@, wire_comments(b.trailing_comments@)),
    ];
    let s = with_offset(with_offset(s, "start"@, b.start), "end"@, b.end);
    let s = match b.loc {
        Some(l) => s.push(("loc"@, wire_loc(l))),
        None => s,
    };
    match b.extra {
        Some(e) => s.push(("extra"@, JsonV::Object(json_entries(e@)))),
        None => s,
    }
}

pub open spec fn str_value(s: String) -> JsonV {
    JsonV::Str(s@)
}

pub open spec fn wire_ident(t: Identifier) -> JsonV {
    JsonV::Object(
        with_flag(with(head("Identifier"@, t.base), "name"@, str_value(t.name)), "optional"@, t.optional),
    )
}

pub open spec fn wire_string_literal(t: StringLiteral) -> JsonV {
    JsonV::Object(with(head("StringLiteral"@, t.base), "value"@, str_value(t.value)))
}

pub open spec fn wire_numeric_literal(t: NumericLiteral) -> JsonV {
    JsonV::Object(with(head("NumericLiteral"@, t.base), "value"@, JsonV::Number(t.value)))
}

pub open spec fn wire_boolean_literal(t: BooleanLiteral) -> JsonV {
    JsonV::Object(with(head("BooleanLiteral"@, t.base), "value"@, JsonV::Bool(t.value)))
}

pub open spec fn wire_literal(t: Literal) -> JsonV {
    match t {
        Literal::StringLiteral(x) => wire_string_literal(x),
        Literal::NumericLiteral(x) => wire_numeric_literal(x),
        Literal::NullLiteral(x) => JsonV::Object(head("NullLiteral"@, x.base)),
        Literal::BooleanLiteral(x) => wire_boolean_literal(x),
        Literal::RegExpLiteral(x) => JsonV::Object(
            with(
                with(head("RegExpLiteral"@, x.base), "pattern"@, str_value(x.pattern)),
                "flags"@,
                str_value(x.flags),
            ),
        ),
    }
}

pub open spec fn wire_expr(t: Expression) -> JsonV
    decreases t,
{
    match t {
        Expression::Identifier(x) => wire_ident(x),
        Expression::Literal(x) => wire_literal(x),
        Expression::ThisExpression(x) => JsonV::Object(head("ThisExpression"@, x.base)),
        Expression::ArrayExpression(x) => JsonV::Object(
            with(
                head("ArrayExpression"@, x.base),
                "elements"@,
                wire_elements(x.elements@),
            ),
        ),
        Expression::ObjectExpression(x) => JsonV::Object(
            with(head("ObjectExpression"@, x.base), "properties"@, wire_props(x.properties@)),
        ),
        Expression::FunctionExpression(x) => JsonV::Object(
            function_fields(
                head("FunctionExpression"@, x.base),
                wire_opt_ident(x.id),
                wire_params(x.params@),
                wire_block(x.body),
                x.generator,
                x.is_async,
            ),
        ),
        Expression::ArrowFunctionExpression(x) => JsonV::Object(
            with(
                with(
                    with(
                        with(
                            with(head("ArrowFunctionExpression"@, x.base), "params"@, wire_params(x.params@)),
                            "body"@,
                            match x.body {
                                ArrowFunctionBody::BlockStatement(b) => wire_block(b),
                                ArrowFunctionBody::Expression(e) => wire_expr(*e),
                            },
                        ),
                        "async"@,
                        JsonV::Bool(x.is_async),
                    ),
                    "expression"@,
                    JsonV::Bool(x.expression),
                ),
                "generator"@,
                JsonV::Bool(x.generator),
            ),
        ),
        Expression::UnaryExpression(x) => JsonV::Object(
            with(
                with(
                    with(head("UnaryExpression"@, x.base), "operator"@, JsonV::Str(x.operator.token())),
                    "argument"@,
                    wire_expr(*x.argument),
                ),
                "prefix"@,
                JsonV::Bool(x.prefix),
            ),
        ),
        Expression::UpdateExpression(x) => JsonV::Object(
            with(
                with(
                    with(head("UpdateExpression"@, x.base), "operator"@, JsonV::Str(x.operator.token())),
                    "argument"@,
                    wire_expr(*x.argument),
                ),
                "prefix"@,
                JsonV::Bool(x.prefix),
            ),
        ),
        Expression::Binary(Binary::BinaryExpression(x)) => JsonV::Object(
            with(
                with(
                    with(head("BinaryExpression"@, x.base), "operator"@, JsonV::Str(x.operator.token())),
                    "left"@,
                    match *x.left {
                        BindaryLeft::Expression(l) => wire_expr(l),
                    },
                ),
                "right"@,
                wire_expr(*x.right),
            ),
        ),
        Expression::Binary(Binary::LogicalExpression(x)) => JsonV::Object(
            with(
                with(
                    with(head("LogicalExpression"@, x.base), "operator"@, JsonV::Str(x.operator.token())),
                    "left"@,
                    wire_expr(*x.left),
                ),
                "right"@,
                wire_expr(*x.right),
            ),
        ),
        Expression::AssignmentExpression(x) => JsonV::Object(
            with(
                with(
                    with(head("AssignmentExpression"@, x.base), "operator"@, str_value(x.operator)),
                    "left"@,
                    wire_lval(*x.left),
                ),
                "right"@,
                wire_expr(*x.right),
            ),
        ),
        Expression::ConditionalExpression(x) => JsonV::Object(
            with(
                with(
                    with(head("ConditionalExpression"@, x.base), "test"@, wire_expr(*x.test)),
                    "consequent"@,
                    wire_expr(*x.consequent),
                ),
                "alternate"@,
                wire_expr(*x.alternate),
            ),
        ),
        Expression::CallExpression(x) => JsonV::Object(
            with_flag(
                with(
                    with(
                        head("CallExpression"@, x.base),
                        "callee"@,
                        match *x.callee {
                            Callee::Expression(c) => wire_expr(c),
                        },
                    ),
                    "arguments"@,
                    wire_args(x.arguments@),
                ),
                "optional"@,
                x.optional,
            ),
        ),
        Expression::NewExpression(x) => JsonV::Object(
            with_flag(
                with(
                    with(
                        head("NewExpression"@, x.base),
                        "callee"@,
                        match *x.callee {
                            Callee::Expression(c) => wire_expr(c),
                        },
                    ),
                    "arguments"@,
                    wire_args(x.arguments@),
                ),
                "optional"@,
                x.optional,
            ),
        ),
        Expression::MemberExpression(x) => wire_member(x),
        Expression::SequenceExpression(x) => JsonV::Object(
            with(
                head("SequenceExpression"@, x.base),
                "expressions"@,
                wire_exprs(x.expressions@),
            ),
        ),
        Expression::ParenthesizedExpression(x) => JsonV::Object(
            with(head("ParenthesizedExpression"@, x.base), "expression"@, wire_expr(*x.expression)),
        ),
    }
}

pub open spec fn wire_elements(v: Seq<Option<ArrayEl>>) -> JsonV
    decreases v,
{
    JsonV::Array(
        Seq::new(
            v.len(),
            |i: int|
                if 0 <= i < v.len() {
                    wire_element(v[i])
                } else {
                    JsonV::Null
                },
        ),
    )
}

pub open spec fn wire_exprs(v: Seq<Expression>) -> JsonV
    decreases v,
{
    JsonV::Array(
        Seq::new(
            v.len(),
            |i: int|
                if 0 <= i < v.len() {
                    wire_expr(v[i])
                } else {
                    JsonV::Null
                },
        ),
    )
}

pub open spec fn wire_cases(v: Seq<SwitchCase>) -> JsonV
    decreases v,
{
    JsonV::Array(
        Seq::new(
            v.len(),
            |i: int|
                if 0 <= i < v.len() {
                    wire_case(v[i])
                } else {
                    JsonV::Null
                },
        ),
    )
}

pub open spec fn wire_declarators(v: Seq<VariableDeclarator>) -> JsonV
    decreases v,
{
    JsonV::Array(
        Seq::new(
            v.len(),
            |i: int|
                if 0 <= i < v.len() {
                    wire_declarator(v[i])
                } else {
                    JsonV::Null
                },
        ),
    )
}

pub open spec fn wire_key(t: ObjectKey) -> JsonV
    decreases t,
{
    match t {
        ObjectKey::Expression(e) => wire_expr(e),
        ObjectKey::Identifier(i) => wire_ident(i),
        ObjectKey::StringLiteral(v) => wire_string_literal(v),
        ObjectKey::NumericLiteral(n) => wire_numeric_literal(n),
    }
}

pub open spec fn wire_prop(t: ObjectExpressionProp) -> JsonV
    decreases t,
{
    match t {
        ObjectExpressionProp::ObjectProperty(p) => JsonV::Object(
            with(
                with(
                    with(
                        with(head("ObjectProperty"@, p.base), "key"@, wire_key(p.key)),
                        "value"@,
                        match p.value {
                            ObjectPropertyVal::Expression(e) => wire_expr(e),
                            ObjectPropertyVal::PatternLike(PatternLike::Identifier(i)) => wire_ident(i),
                            ObjectPropertyVal::PatternLike(PatternLike::RestElement(r)) => wire_rest(r),
                        },
                    ),
                    "computed"@,
                    JsonV::Bool(p.computed),
                ),
                "shorthand"@,
                JsonV::Bool(p.shorthand),
            ),
        ),
        ObjectExpressionProp::ObjectMethod(m) => JsonV::Object(
            with_flag(
                with_flag(
                    with(
                        with(
                            with(
                                with(
                                    with(head("ObjectMethod"@, m.base), "kind"@, JsonV::Str(m.kind.token())),
                                    "key"@,
                                    wire_key(m.key),
                                ),
                                "params"@,
                                wire_params(m.params@),
                            ),
                            "body"@,
                            wire_block(m.body),
                        ),
                        "computed"@,
                        JsonV::Bool(m.computed),
                    ),
                    "generator"@,
                    m.generator,
                ),
                "async"@,
                m.is_async,
            ),
        ),
    }
}

pub open spec fn wire_props(v: Seq<ObjectExpressionProp>) -> JsonV
    decreases v,
{
    JsonV::Array(
        Seq::new(
            v.len(),
            |i: int|
                if 0 <= i < v.len() {
                    wire_prop(v[i])
                } else {
                    JsonV::Null
                },
        ),
    )
}

pub open spec fn wire_element(t: Option<ArrayEl>) -> JsonV
    decreases t,
{
    match t {
        Some(ArrayEl::Expression(e)) => wire_expr(e),
        None => JsonV::Null,
    }
}

pub open spec fn wire_args(v: Seq<Arg>) -> JsonV
    decreases v,
{
    JsonV::Array(
        Seq::new(
            v.len(),
            |i: int|
                if 0 <= i < v.len() {
                    match v[i] {
                        Arg::Expression(e) => wire_expr(e),
                    }
                } else {
                    JsonV::Null
                },
        ),
    )
}

pub open spec fn wire_member(t: MemberExpression) -> JsonV
    decreases t,
{
    JsonV::Object(
        with_flag(
            with(
                with(
                    with(head("MemberExpression"@, t.base), "object"@, wire_expr(*t.object)),
                    "property"@,
                    match *t.property {
                        MemberProp::Expression(e) => wire_expr(e),
                        MemberProp::Identifier(i) => wire_ident(i),
                    },
                ),
                "computed"@,
                JsonV::Bool(t.computed),
            ),
            "optional"@,
            t.optional,
        ),
    )
}

pub open spec fn wire_rest(t: RestElement) -> JsonV
    decreases t,
{
    JsonV::Object(with(head("RestElement"@, t.base), "argument"@, wire_lval(*t.argument)))
}

pub open spec fn wire_lval(t: LVal) -> JsonV
    decreases t,
{
    match t {
        LVal::Identifier(x) => wire_ident(x),
        LVal::MemberExpression(x) => wire_member(x),
        LVal::RestElement(x) => wire_rest(x),
    }
}

pub open spec fn wire_param(t: Param) -> JsonV
    decreases t,
{
    match t {
        Param::Identifier(x) => wire_ident(x),
        Param::RestElement(x) => wire_rest(x),
    }
}

pub open spec fn wire_opt_ident(t: Option<Identifier>) -> Option<JsonV> {
    match t {
        Some(i) => Some(wire_ident(i)),
        None => None,
    }
}

/// The fields that function expressions and declarations share.
pub open spec fn function_fields(
    s: Entries,
    id: Option<JsonV>,
    params: JsonV,
    body: JsonV,
    generator: Option<bool>,
    is_async: Option<bool>,
) -> Entries {
    with_flag(
        with_flag(with(with(with_opt(s, "id"@, id), "params"@, params), "body"@, body), "generator"@, generator),
        "async"@,
        is_async,
    )
}

pub open spec fn wire_params(v: Seq<Param>) -> JsonV
    decreases v,
{
    JsonV::Array(
        Seq::new(
            v.len(),
            |i: int|
                if 0 <= i < v.len() {
                    wire_param(v[i])
                } else {
                    JsonV::Null
                },
        ),
    )
}

pub open spec fn wire_directive(d: Directive) -> JsonV {
    JsonV::Object(
        with(
            head("Directive"@, d.base),
            "value"@,
            JsonV::Object(with(head("DirectiveLiteral"@, d.value.base), "value"@, str_value(d.value.value))),
        ),
    )
}

pub open spec fn wire_directives(v: Seq<Directive>) -> JsonV {
    JsonV::Array(Seq::new(v.len(), |i: int| wire_directive(v[i])))
}

pub open spec fn wire_stmts(v: Seq<Statement>) -> JsonV
    decreases v,
{
    JsonV::Array(
        Seq::new(
            v.len(),
            |i: int|
                if 0 <= i < v.len() {
                    wire_stmt(v[i])
                } else {
                    JsonV::Null
                },
        ),
    )
}

pub open spec fn wire_block(t: BlockStatement) -> JsonV
    decreases t,
{
    JsonV::Object(
        with(
            with(head("BlockStatement"@, t.base), "body"@, wire_stmts(t.body@)),
            "directives"@,
            wire_directives(t.directives@),
        ),
    )
}

pub open spec fn wire_opt_expr(t: Option<Expression>) -> Option<JsonV>
    decreases t,
{
    match t {
        Some(e) => Some(wire_expr(e)),
        None => None,
    }
}

pub open spec fn wire_case(t: SwitchCase) -> JsonV
    decreases t,
{
    JsonV::Object(
        with(
            with_opt(head("SwitchCase"@, t.base), "test"@, wire_opt_expr(t.test)),
            "consequent"@,
            wire_stmts(t.consequent@),
        ),
    )
}

pub open spec fn wire_declarator(t: VariableDeclarator) -> JsonV
    decreases t,
{
    JsonV::Object(
        with_flag(
            with_opt(
                with(head("VariableDeclarator"@, t.base), "id"@, wire_lval(t.id)),
                "init"@,
                match t.init {
                    Some(e) => Some(wire_expr(*e)),
                    None => None,
                },
            ),
            "definite"@,
            t.definite,
        ),
    )
}

pub open spec fn wire_var_decl(t: VariableDeclaration) -> JsonV
    decreases t,
{
    JsonV::Object(
        with_flag(
            with(
                with(head("VariableDeclaration"@, t.base), "kind"@, JsonV::Str(t.kind.token())),
                "declarations"@,
                wire_declarators(t.declarations@),
            ),
            "declare"@,
            t.declare,
        ),
    )
}

pub open spec fn wire_catch(t: CatchClause) -> JsonV
    decreases t,
{
    JsonV::Object(
        with(
            with_opt(
                head("CatchClause"@, t.base),
                "param"@,
                match t.param {
                    Some(CatchParam::Identifier(i)) => Some(wire_ident(i)),
                    None => None,
                },
            ),
            "body"@,
            wire_block(t.body),
        ),
    )
}

pub open spec fn wire_stmt(t: Statement) -> JsonV
    decreases t,
{
    match t {
        Statement::ExpressionStatement(x) => JsonV::Object(
            with(head("ExpressionStatement"@, x.base), "expression"@, wire_expr(x.expression)),
        ),
        Statement::BlockStatement(x) => wire_block(x),
        Statement::EmptyStatement(x) => JsonV::Object(head("EmptyStatement"@, x.base)),
        Statement::DebuggerStatement(x) => JsonV::Object(head("DebuggerStatement"@, x.base)),
        Statement::ReturnStatement(x) => JsonV::Object(
            with_opt(head("ReturnStatement"@, x.base), "argument"@, wire_opt_expr(x.argument)),
        ),
        Statement::IfStatement(x) => JsonV::Object(
            with_opt(
                with(
                    with(head("IfStatement"@, x.base), "test"@, wire_expr(x.test)),
                    "consequent"@,
                    wire_stmt(*x.consequent),
                ),
                "alternate"@,
                match x.alternate {
                    Some(a) => Some(wire_stmt(*a)),
                    None => None,
                },
            ),
        ),
        Statement::WhileStatement(x) => JsonV::Object(
            with(
                with(head("WhileStatement"@, x.base), "test"@, wire_expr(x.test)),
                "body"@,
                wire_stmt(*x.body),
            ),
        ),
        Statement::DoWhileStatement(x) => JsonV::Object(
            with(
                with(head("DoWhileStatement"@, x.base), "test"@, wire_expr(x.test)),
                "body"@,
                wire_stmt(*x.body),
            ),
        ),
        Statement::ThrowStatement(x) => JsonV::Object(
            with(head("ThrowStatement"@, x.base), "argument"@, wire_expr(x.argument)),
        ),
        Statement::SwitchStatement(x) => JsonV::Object(
            with(
                with(head("SwitchStatement"@, x.base), "descriminant"@, wire_expr(x.descriminant)),
                "cases"@,
                wire_cases(x.cases@),
            ),
        ),
        Statement::BreakStatement(x) => JsonV::Object(
            with_opt(head("BreakStatement"@, x.base), "label"@, wire_opt_ident(x.label)),
        ),
        Statement::ContinueStatement(x) => JsonV::Object(
            with_opt(head("ContinueStatement"@, x.base), "label"@, wire_opt_ident(x.label)),
        ),
        Statement::LabeledStatement(x) => JsonV::Object(
            with(
                with(head("LabeledStatement"@, x.base), "label"@, wire_ident(x.label)),
                "body"@,
                wire_stmt(*x.body),
            ),
        ),
        Statement::ForStatement(x) => JsonV::Object(
            with(
                with_opt(
                    with_opt(
                        with_opt(
                            head("ForStatement"@, x.base),
                            "init"@,
                            match x.init {
                                Some(ForInit::VariableDeclaration(v)) => Some(wire_var_decl(v)),
                                Some(ForInit::Expression(e)) => Some(wire_expr(e)),
                                None => None,
                            },
                        ),
                        "test"@,
                        wire_opt_expr(x.test),
                    ),
                    "update"@,
                    wire_opt_expr(x.update),
                ),
                "body"@,
                wire_stmt(*x.body),
            ),
        ),
        Statement::ForInStatement(x) => JsonV::Object(
            with(
                with(
                    with(
                        head("ForInStatement"@, x.base),
                        "left"@,
                        match x.left {
                            ForInLeft::VariableDeclaration(v) => wire_var_decl(v),
                            ForInLeft::LVal(l) => wire_lval(l),
                        },
                    ),
                    "right"@,
                    wire_expr(x.right),
                ),
                "body"@,
                wire_stmt(*x.body),
            ),
        ),
        Statement::TryStatement(x) => JsonV::Object(
            with_opt(
                with_opt(
                    with(head("TryStatement"@, x.base), "block"@, wire_block(x.block)),
                    "handler"@,
                    match x.handler {
                        Some(h) => Some(wire_catch(h)),
                        None => None,
                    },
                ),
                "finalizer"@,
                match x.finalizer {
                    Some(f) => Some(wire_block(f)),
                    None => None,
                },
            ),
        ),
        Statement::VariableDeclaration(x) => wire_var_decl(x),
        Statement::FunctionDeclaration(x) => JsonV::Object(
            function_fields(
                head("FunctionDeclaration"@, x.base),
                wire_opt_ident(x.id),
                wire_params(x.params@),
                wire_block(x.body),
                x.generator,
                x.is_async,
            ),
        ),
        Statement::EnumDeclaration(x) => wire_enum(x),
    }
}


pub open spec fn wire_defaulted_member(t: EnumDefaultedMember) -> JsonV {
    JsonV::Object(with(head("EnumDefaultedMember"@, t.base), "id"@, wire_ident(t.id)))
}

pub open spec fn wire_boolean_member(t: EnumBooleanMember) -> JsonV {
    JsonV::Object(
        with(
            with(head("EnumBooleanMember"@, t.base), "id"@, wire_ident(t.id)),
            "init"@,
            wire_boolean_literal(t.init),
        ),
    )
}

pub open spec fn wire_number_member(t: EnumNumberMember) -> JsonV {
    JsonV::Object(
        with(
            with(head("EnumNumberMember"@, t.base), "id"@, wire_ident(t.id)),
            "init"@,
            wire_numeric_literal(t.init),
        ),
    )
}

pub open spec fn wire_string_member(t: EnumStringBodyMember) -> JsonV {
    match t {
        EnumStringBodyMember::String(m) => JsonV::Object(
            with(
                with(head("EnumStringMember"@, m.base), "id"@, wire_ident(m.id)),
                "init"@,
                wire_string_literal(m.init),
            ),
        ),
        EnumStringBodyMember::Defaulted(m) => wire_defaulted_member(m),
    }
}

/// The fields that every body shape ends with.
pub open spec fn body_fields(
    s: Entries,
    members: Seq<JsonV>,
    explicit_type: Option<bool>,
    has_unknown_members: bool,
) -> Entries {
    with(
        with_flag(with(s, "members"@, JsonV::Array(members)), "explicitType"@, explicit_type),
        "hasUnknownMembers"@,
        JsonV::Bool(has_unknown_members),
    )
}

pub open spec fn wire_enum_body(t: EnumBody) -> JsonV {
    match t {
        EnumBody::Boolean(b) => JsonV::Object(
            body_fields(
                head("EnumBooleanBody"@, b.base),
                Seq::new(b.members@.len(), |i: int| wire_boolean_member(b.members@[i])),
                Some(b.explicit_type),
                b.has_unknown_members,
            ),
        ),
        EnumBody::Number(b) => JsonV::Object(
            body_fields(
                head("EnumNumberBody"@, b.base),
                Seq::new(b.members@.len(), |i: int| wire_number_member(b.members@[i])),
                Some(b.explicit_type),
                b.has_unknown_members,
            ),
        ),
        EnumBody::String(b) => JsonV::Object(
            body_fields(
                head("EnumStringBody"@, b.base),
                Seq::new(b.members@.len(), |i: int| wire_string_member(b.members@[i])),
                Some(b.explicit_type),
                b.has_unknown_members,
            ),
        ),
        EnumBody::Symbol(b) => JsonV::Object(
            body_fields(
                head("EnumSymbolBody"@, b.base),
                Seq::new(b.members@.len(), |i: int| wire_defaulted_member(b.members@[i])),
                None,
                b.has_unknown_members,
            ),
        ),
    }
}

pub open spec fn wire_enum(t: EnumDeclaration) -> JsonV {
    JsonV::Object(
        with(
            with(head("EnumDeclaration"@, t.base), "id"@, wire_ident(t.id)),
            "body"@,
            wire_enum_body(t.body),
        ),
    )
}

pub open spec fn wire_specifier(t: ModuleSpecifier) -> JsonV {
    match t {
        ModuleSpecifier::ImportSpecifier(x) => JsonV::Object(
            with(
                with(head("ImportSpecifier"@, x.base), "local"@, wire_ident(x.local)),
                "imported"@,
                wire_ident(x.imported),
            ),
        ),
        ModuleSpecifier::ImportDefaultSpecifier(x) => JsonV::Object(
            with(head("ImportDefaultSpecifier"@, x.base), "local"@, wire_ident(x.local)),
        ),
        ModuleSpecifier::ImportNamespaceSpecifier(x) => JsonV::Object(
            with(head("ImportNamespaceSpecifier"@, x.base), "local"@, wire_ident(x.local)),
        ),
    }
}

pub open spec fn wire_import(t: ImportDeclaration) -> JsonV {
    JsonV::Object(
        with(
            with(
                head("ImportDeclaration"@, t.base),
                "specifiers"@,
                JsonV::Array(Seq::new(t.specifiers@.len(), |i: int| wire_specifier(t.specifiers@[i]))),
            ),
            "source"@,
            wire_string_literal(t.source),
        ),
    )
}

/// A module item is written as the node it holds, with no wrapper.
pub open spec fn wire_item(t: ModuleItemOutput) -> JsonV {
    match t {
        ModuleItemOutput::ModuleDecl(ModuleDeclaration::ImportDeclaration(d)) => wire_import(d),
        ModuleItemOutput::Stmt(s) => wire_stmt(s),
    }
}

pub open spec fn wire_interpreter(t: Option<InterpreterDirective>) -> Option<JsonV> {
    match t {
        Some(d) => Some(
            JsonV::Object(with(head("InterpreterDirective"@, d.base), "value"@, str_value(d.value))),
        ),
        None => None,
    }
}

pub open spec fn wire_program(t: Program) -> JsonV {
    JsonV::Object(
        with(
            with_opt(
                with(
                    with(
                        with(
                            head("Program"@, t.base),
                            "body"@,
                            JsonV::Array(Seq::new(t.body@.len(), |i: int| wire_item(t.body@[i]))),
                        ),
                        "directives"@,
                        wire_directives(t.directives@),
                    ),
                    "sourceType"@,
                    JsonV::Str(t.source_type.token()),
                ),
                "interpreter"@,
                wire_interpreter(t.interpreter),
            ),
            "sourceFile"@,
            str_value(t.source_file),
        ),
    )
}


// ------------------------------------------------------------------ encoders

fn push_flag(o: &mut Vec<(String, Json)>, key: &str, v: Option<bool>)
    ensures
        json_entries(final(o)@) == with_flag(json_entries(old(o)@), key@, v),
{
    match v {
        Some(b) => push_entry(o, key, Json::Bool(b)),
        None => {},
    }
}

/// The meaning of an optional field's value.
pub open spec fn opt_value(o: Option<Json>) -> Option<JsonV> {
    match o {
        Some(j) => Some(json_value(j)),
        None => None,
    }
}

fn push_opt(o: &mut Vec<(String, Json)>, key: &str, v: Option<Json>)
    ensures
        json_entries(final(o)@) == with_opt(json_entries(old(o)@), key@, opt_value(v)),
{
    match v {
        Some(j) => push_entry(o, key, j),
        None => {},
    }
}

fn push_offset(o: &mut Vec<(String, Json)>, key: &str, v: Option<usize>)
    ensures
        json_entries(final(o)@) == with_offset(json_entries(old(o)@), key@, v),
{
    match v {
        Some(n) => push_entry(o, key, Json::UInt(n)),
        None => {},
    }
}

fn line_col_json(p: LineCol) -> (r: Json)
    ensures
        json_value(r) == wire_line_col(p),
{
    broadcast use group_json;

    let mut o: Vec<(String, Json)> = Vec::new();
    push_entry(&mut o, "line", Json::UInt(p.line));
    push_entry(&mut o, "column", Json::UInt(p.column));
    assert(json_entries(o@) =~= seq![("line"@, JsonV::UInt(p.line as nat)), ("column"@, JsonV::UInt(p.column as nat))]);
    Json::Object(o)
}

fn loc_json(l: Loc) -> (r: Json)
    ensures
        json_value(r) == wire_loc(l),
{
    broadcast use group_json;

    let mut o: Vec<(String, Json)> = Vec::new();
    push_entry(&mut o, "start", line_col_json(l.start));
    push_entry(&mut o, "end", line_col_json(l.end));
    assert(json_entries(o@) =~= seq![("start"@, wire_line_col(l.start)), ("end"@, wire_line_col(l.end))]);
    Json::Object(o)
}

fn comment_json(c: &Comment) -> (r: Json)
    ensures
        json_value(r) == wire_comment(*c),
{
    broadcast use group_json;

    let (tag, b) = match c {
        Comment::Block(b) => ("CommentBlock", b),
        Comment::Line(b) => ("CommentLine", b),
    };
    let mut o: Vec<(String, Json)> = Vec::new();
    push_entry(&mut o, "type", Json::Str(tag.to_owned()));
    push_entry(&mut o, "value", Json::Str(b.value.clone()));
    push_entry(&mut o, "start", Json::UInt(b.start));
    push_entry(&mut o, "end", Json::UInt(b.end));
    push_entry(&mut o, "loc", loc_json(b.loc));
    assert(json_entries(o@) =~= wire_comment(*c)->Object_0);
    Json::Object(o)
}

fn comments_json(v: &Vec<Comment>) -> (r: Json)
    ensures
        json_value(r) == wire_comments(v@),
{
    broadcast use group_json;

    let mut arr: Vec<Json> = Vec::new();
    let mut i: usize = 0;
    while i < v.len()
        invariant
            i <= v@.len(),
            arr@.len() == i,
            forall|j: int| 0 <= j < i ==> json_value(#[trigger] arr@[j]) == wire_comment(v@[j]),
        decreases v@.len() - i,
    {
        arr.push(comment_json(&v[i]));
        i = i + 1;
    }
    assert(values_of(arr@) =~= wire_comments(v@)->Array_0);
    Json::Array(arr)
}

/// Opens a node's object: its type, then its envelope.
pub fn start_node(tag: &str, b: &BaseNode) -> (r: Vec<(String, Json)>)
    ensures
        json_entries(r@) == head(tag@, *b),
{
    broadcast use group_json;

    reveal(head);
    let mut o: Vec<(String, Json)> = Vec::new();
    push_entry(&mut o, "type", Json::Str(tag.to_owned()));
    push_entry(&mut o, "leadingComments", comments_json(&b.leading_comments));
    push_entry(&mut o, "innerComments", comments_json(&b.inner_comments));
    push_entry(&mut o, "trailingComments", comments_json(&b.trailing_comments));
    assert(json_entries(o@) =~= seq![
        ("type"@, JsonV::Str(tag@)),
        ("leadingComments"@, wire_comments(b.leading_comments@)),
        ("innerComments"@, wire_comments(b.inner_comments@)),
        ("trailingComments"@, wire_comments(b.trailing_comments@)),
    ]);
    push_offset(&mut o, "start", b.start);
    push_offset(&mut o, "end", b.end);
    match b.loc {
        Some(l) => push_entry(&mut o, "loc", loc_json(l)),
        None => {},
    }
    match &b.extra {
        Some(e) => {
            let extra = duplicate_object(e);
            push_entry(&mut o, "extra", extra);
        },
        None => {},
    }
    o
}

fn duplicate_object(e: &Vec<(String, Json)>) -> (r: Json)
    ensures
        json_value(r) == JsonV::Object(json_entries(e@)),
{
    broadcast use group_json;

    let mut o: Vec<(String, Json)> = Vec::new();
    let mut i: usize = 0;
    while i < e.len()
        invariant
            i <= e@.len(),
            json_entries(o@) == json_entries(e@.take(i as int)),
        decreases e@.len() - i,
    {
        push_entry(&mut o, e[i].0.as_str(), e[i].1.duplicate());
        assert(json_entries(e@.take(i as int + 1)) =~= json_entries(e@.take(i as int)).push(
            (e@[i as int].0@, json_value(e@[i as int].1)),
        ));
        i = i + 1;
    }
    assert(e@.take(e@.len() as int) =~= e@);
    Json::Object(o)
}

pub fn ident_json(t: &Identifier) -> (r: Json)
    ensures
        json_value(r) == wire_ident(*t),
{
    broadcast use group_json;

    let mut o = start_node("Identifier", &t.base);
    push_entry(&mut o, "name", Json::Str(t.name.clone()));
    push_flag(&mut o, "optional", t.optional);
    Json::Object(o)
}

fn string_literal_json(t: &StringLiteral) -> (r: Json)
    ensures
        json_value(r) == wire_string_literal(*t),
{
    broadcast use group_json;

    let mut o = start_node("StringLiteral", &t.base);
    push_entry(&mut o, "value", Json::Str(t.value.clone()));
    Json::Object(o)
}

fn numeric_literal_json(t: &NumericLiteral) -> (r: Json)
    ensures
        json_value(r) == wire_numeric_literal(*t),
{
    broadcast use group_json;

    let mut o = start_node("NumericLiteral", &t.base);
    push_entry(&mut o, "value", Json::Number(t.value));
    Json::Object(o)
}

fn boolean_literal_json(t: &BooleanLiteral) -> (r: Json)
    ensures
        json_value(r) == wire_boolean_literal(*t),
{
    broadcast use group_json;

    let mut o = start_node("BooleanLiteral", &t.base);
    push_entry(&mut o, "value", Json::Bool(t.value));
    Json::Object(o)
}

fn literal_json(t: &Literal) -> (r: Json)
    ensures
        json_value(r) == wire_literal(*t),
{
    broadcast use group_json;

    match t {
        Literal::StringLiteral(x) => string_literal_json(x),
        Literal::NumericLiteral(x) => numeric_literal_json(x),
        Literal::NullLiteral(x) => Json::Object(start_node("NullLiteral", &x.base)),
        Literal::BooleanLiteral(x) => boolean_literal_json(x),
        Literal::RegExpLiteral(x) => {
            let mut o = start_node("RegExpLiteral", &x.base);
            push_entry(&mut o, "pattern", Json::Str(x.pattern.clone()));
            push_entry(&mut o, "flags", Json::Str(x.flags.clone()));
            Json::Object(o)
        },
    }
}


fn elements_json(v: &Vec<Option<ArrayEl>>) -> (r: Json)
    ensures
        json_value(r) == wire_elements(v@),
    decreases v,
{
    broadcast use group_json;

    let mut arr: Vec<Json> = Vec::new();
    let mut i: usize = 0;
    while i < v.len()
        invariant
            i <= v@.len(),
            arr@.len() == i,
            forall|j: int| 0 <= j < i ==> json_value(#[trigger] arr@[j]) == wire_element(v@[j]),
        decreases v@.len() - i,
    {
        arr.push(element_json(&v[i]));
        i = i + 1;
    }
    assert(values_of(arr@) =~= wire_elements(v@)->Array_0);
    Json::Array(arr)
}

fn args_json(v: &Vec<Arg>) -> (r: Json)
    ensures
        json_value(r) == wire_args(v@),
    decreases v,
{
    broadcast use group_json;

    let mut arr: Vec<Json> = Vec::new();
    let mut i: usize = 0;
    while i < v.len()
        invariant
            i <= v@.len(),
            arr@.len() == i,
            forall|j: int| 0 <= j < i ==> json_value(#[trigger] arr@[j]) == match v@[j] { Arg::Expression(e) => wire_expr(e) },
        decreases v@.len() - i,
    {
        arr.push(match &v[i] {
            Arg::Expression(e) => expr_json(e),
        });
        i = i + 1;
    }
    assert(values_of(arr@) =~= wire_args(v@)->Array_0);
    Json::Array(arr)
}

fn exprs_json(v: &Vec<Expression>) -> (r: Json)
    ensures
        json_value(r) == wire_exprs(v@),
    decreases v,
{
    broadcast use group_json;

    let mut arr: Vec<Json> = Vec::new();
    let mut i: usize = 0;
    while i < v.len()
        invariant
            i <= v@.len(),
            arr@.len() == i,
            forall|j: int| 0 <= j < i ==> json_value(#[trigger] arr@[j]) == wire_expr(v@[j]),
        decreases v@.len() - i,
    {
        arr.push(expr_json(&v[i]));
        i = i + 1;
    }
    assert(values_of(arr@) =~= wire_exprs(v@)->Array_0);
    Json::Array(arr)
}

fn params_json(v: &Vec<Param>) -> (r: Json)
    ensures
        json_value(r) == wire_params(v@),
    decreases v,
{
    broadcast use group_json;

    let mut arr: Vec<Json> = Vec::new();
    let mut i: usize = 0;
    while i < v.len()
        invariant
            i <= v@.len(),
            arr@.len() == i,
            forall|j: int| 0 <= j < i ==> json_value(#[trigger] arr@[j]) == wire_param(v@[j]),
        decreases v@.len() - i,
    {
        arr.push(param_json(&v[i]));
        i = i + 1;
    }
    assert(values_of(arr@) =~= wire_params(v@)->Array_0);
    Json::Array(arr)
}

fn stmts_json(v: &Vec<Statement>) -> (r: Json)
    ensures
        json_value(r) == wire_stmts(v@),
    decreases v,
{
    broadcast use group_json;

    let mut arr: Vec<Json> = Vec::new();
    let mut i: usize = 0;
    while i < v.len()
        invariant
            i <= v@.len(),
            arr@.len() == i,
            forall|j: int| 0 <= j < i ==> json_value(#[trigger] arr@[j]) == wire_stmt(v@[j]),
        decreases v@.len() - i,
    {
        arr.push(stmt_json(&v[i]));
        i = i + 1;
    }
    assert(values_of(arr@) =~= wire_stmts(v@)->Array_0);
    Json::Array(arr)
}

fn props_json(v: &Vec<ObjectExpressionProp>) -> (r: Json)
    ensures
        json_value(r) == wire_props(v@),
    decreases v,
{
    broadcast use group_json;

    let mut arr: Vec<Json> = Vec::new();
    let mut i: usize = 0;
    while i < v.len()
        invariant
            i <= v@.len(),
            arr@.len() == i,
            forall|j: int| 0 <= j < i ==> json_value(#[trigger] arr@[j]) == wire_prop(v@[j]),
        decreases v@.len() - i,
    {
        arr.push(prop_json(&v[i]));
        i = i + 1;
    }
    assert(values_of(arr@) =~= wire_props(v@)->Array_0);
    Json::Array(arr)
}

fn cases_json(v: &Vec<SwitchCase>) -> (r: Json)
    ensures
        json_value(r) == wire_cases(v@),
    decreases v,
{
    broadcast use group_json;

    let mut arr: Vec<Json> = Vec::new();
    let mut i: usize = 0;
    while i < v.len()
        invariant
            i <= v@.len(),
            arr@.len() == i,
            forall|j: int| 0 <= j < i ==> json_value(#[trigger] arr@[j]) == wire_case(v@[j]),
        decreases v@.len() - i,
    {
        arr.push(case_json(&v[i]));
        i = i + 1;
    }
    assert(values_of(arr@) =~= wire_cases(v@)->Array_0);
    Json::Array(arr)
}

fn declarators_json(v: &Vec<VariableDeclarator>) -> (r: Json)
    ensures
        json_value(r) == wire_declarators(v@),
    decreases v,
{
    broadcast use group_json;

    let mut arr: Vec<Json> = Vec::new();
    let mut i: usize = 0;
    while i < v.len()
        invariant
            i <= v@.len(),
            arr@.len() == i,
            forall|j: int| 0 <= j < i ==> json_value(#[trigger] arr@[j]) == wire_declarator(v@[j]),
        decreases v@.len() - i,
    {
        arr.push(declarator_json(&v[i]));
        i = i + 1;
    }
    assert(values_of(arr@) =~= wire_declarators(v@)->Array_0);
    Json::Array(arr)
}

fn arrow_json(x: &ArrowFunctionExpression) -> (r: Json)
    ensures
        json_value(r) == wire_expr(Expression::ArrowFunctionExpression(*x)),
    decreases x,
{
    broadcast use group_json;

    let mut o = start_node("ArrowFunctionExpression", &x.base);
    push_entry(&mut o, "params", params_json(&x.params));
    let body = match &x.body {
        ArrowFunctionBody::BlockStatement(b) => block_json(b),
        ArrowFunctionBody::Expression(e) => expr_json(e),
    };
    push_entry(&mut o, "body", body);
    push_entry(&mut o, "async", Json::Bool(x.is_async));
    push_entry(&mut o, "expression", Json::Bool(x.expression));
    push_entry(&mut o, "generator", Json::Bool(x.generator));
    Json::Object(o)
}

fn key_json(t: &ObjectKey) -> (r: Json)
    ensures
        json_value(r) == wire_key(*t),
    decreases t,
{
    match t {
        ObjectKey::Expression(e) => expr_json(e),
        ObjectKey::Identifier(i) => ident_json(i),
        ObjectKey::StringLiteral(v) => string_literal_json(v),
        ObjectKey::NumericLiteral(n) => numeric_literal_json(n),
    }
}

fn prop_json(t: &ObjectExpressionProp) -> (r: Json)
    ensures
        json_value(r) == wire_prop(*t),
    decreases t,
{
    broadcast use group_json;

    match t {
        ObjectExpressionProp::ObjectProperty(p) => {
            let mut o = start_node("ObjectProperty", &p.base);
            push_entry(&mut o, "key", key_json(&p.key));
            let value = match &p.value {
                ObjectPropertyVal::Expression(e) => expr_json(e),
                ObjectPropertyVal::PatternLike(PatternLike::Identifier(i)) => ident_json(i),
                ObjectPropertyVal::PatternLike(PatternLike::RestElement(r)) => rest_json(r),
            };
            push_entry(&mut o, "value", value);
            push_entry(&mut o, "computed", Json::Bool(p.computed));
            push_entry(&mut o, "shorthand", Json::Bool(p.shorthand));
            Json::Object(o)
        },
        ObjectExpressionProp::ObjectMethod(m) => {
            let mut o = start_node("ObjectMethod", &m.base);
            push_entry(&mut o, "kind", Json::Str(m.kind.as_str().to_owned()));
            push_entry(&mut o, "key", key_json(&m.key));
            push_entry(&mut o, "params", params_json(&m.params));
            push_entry(&mut o, "body", block_json(&m.body));
            push_entry(&mut o, "computed", Json::Bool(m.computed));
            push_flag(&mut o, "generator", m.generator);
            push_flag(&mut o, "async", m.is_async);
            Json::Object(o)
        },
    }
}

fn element_json(t: &Option<ArrayEl>) -> (r: Json)
    ensures
        json_value(r) == wire_element(*t),
    decreases t,
{
    match t {
        Some(ArrayEl::Expression(e)) => expr_json(e),
        None => Json::Null,
    }
}

fn opt_ident_json(t: &Option<Identifier>) -> (r: Option<Json>)
    ensures
        opt_value(r) == wire_opt_ident(*t),
{
    match t {
        Some(i) => Some(ident_json(i)),
        None => None,
    }
}

/// The wire form of an expression.
pub fn expr_json(t: &Expression) -> (r: Json)
    ensures
        json_value(r) == wire_expr(*t),
    decreases t,
{
    broadcast use group_json;

    match t {
        Expression::Identifier(x) => ident_json(x),
        Expression::Literal(x) => literal_json(x),
        Expression::ThisExpression(x) => Json::Object(start_node("ThisExpression", &x.base)),
        Expression::ArrayExpression(x) => {
            let mut o = start_node("ArrayExpression", &x.base);
            push_entry(&mut o, "elements", elements_json(&x.elements));
            Json::Object(o)
        },
        Expression::ObjectExpression(x) => {
            let mut o = start_node("ObjectExpression", &x.base);
            push_entry(&mut o, "properties", props_json(&x.properties));
            Json::Object(o)
        },
        Expression::FunctionExpression(x) => {
            let mut o = start_node("FunctionExpression", &x.base);
            push_opt(&mut o, "id", opt_ident_json(&x.id));
            push_entry(&mut o, "params", params_json(&x.params));
            push_entry(&mut o, "body", block_json(&x.body));
            push_flag(&mut o, "generator", x.generator);
            push_flag(&mut o, "async", x.is_async);
            Json::Object(o)
        },
        Expression::ArrowFunctionExpression(x) => arrow_json(x),
        Expression::UnaryExpression(x) => {
            let mut o = start_node("UnaryExpression", &x.base);
            push_entry(&mut o, "operator", Json::Str(x.operator.as_str().to_owned()));
            push_entry(&mut o, "argument", expr_json(&x.argument));
            push_entry(&mut o, "prefix", Json::Bool(x.prefix));
            Json::Object(o)
        },
        Expression::UpdateExpression(x) => {
            let mut o = start_node("UpdateExpression", &x.base);
            push_entry(&mut o, "operator", Json::Str(x.operator.as_str().to_owned()));
            push_entry(&mut o, "argument", expr_json(&x.argument));
            push_entry(&mut o, "prefix", Json::Bool(x.prefix));
            Json::Object(o)
        },
        Expression::Binary(Binary::BinaryExpression(x)) => {
            let mut o = start_node("BinaryExpression", &x.base);
            push_entry(&mut o, "operator", Json::Str(x.operator.as_str().to_owned()));
            let left = match &*x.left {
                BindaryLeft::Expression(l) => expr_json(l),
            };
            push_entry(&mut o, "left", left);
            push_entry(&mut o, "right", expr_json(&x.right));
            Json::Object(o)
        },
        Expression::Binary(Binary::LogicalExpression(x)) => {
            let mut o = start_node("LogicalExpression", &x.base);
            push_entry(&mut o, "operator", Json::Str(x.operator.as_str().to_owned()));
            push_entry(&mut o, "left", expr_json(&x.left));
            push_entry(&mut o, "right", expr_json(&x.right));
            Json::Object(o)
        },
        Expression::AssignmentExpression(x) => {
            let mut o = start_node("AssignmentExpression", &x.base);
            push_entry(&mut o, "operator", Json::Str(x.operator.clone()));
            push_entry(&mut o, "left", lval_json(&x.left));
            push_entry(&mut o, "right", expr_json(&x.right));
            Json::Object(o)
        },
        Expression::ConditionalExpression(x) => {
            let mut o = start_node("ConditionalExpression", &x.base);
            push_entry(&mut o, "test", expr_json(&x.test));
            push_entry(&mut o, "consequent", expr_json(&x.consequent));
            push_entry(&mut o, "alternate", expr_json(&x.alternate));
            Json::Object(o)
        },
        Expression::CallExpression(x) => {
            let mut o = start_node("CallExpression", &x.base);
            let callee = match &*x.callee {
                Callee::Expression(c) => expr_json(c),
            };
            push_entry(&mut o, "callee", callee);
            push_entry(&mut o, "arguments", args_json(&x.arguments));
            push_flag(&mut o, "optional", x.optional);
            Json::Object(o)
        },
        Expression::NewExpression(x) => {
            let mut o = start_node("NewExpression", &x.base);
            let callee = match &*x.callee {
                Callee::Expression(c) => expr_json(c),
            };
            push_entry(&mut o, "callee", callee);
            push_entry(&mut o, "arguments", args_json(&x.arguments));
            push_flag(&mut o, "optional", x.optional);
            Json::Object(o)
        },
        Expression::MemberExpression(x) => member_json(x),
        Expression::SequenceExpression(x) => {
            let mut o = start_node("SequenceExpression", &x.base);
            push_entry(&mut o, "expressions", exprs_json(&x.expressions));
            Json::Object(o)
        },
        Expression::ParenthesizedExpression(x) => {
            let mut o = start_node("ParenthesizedExpression", &x.base);
            push_entry(&mut o, "expression", expr_json(&x.expression));
            Json::Object(o)
        },
    }
}

fn member_json(t: &MemberExpression) -> (r: Json)
    ensures
        json_value(r) == wire_member(*t),
    decreases t,
{
    broadcast use group_json;

    let mut o = start_node("MemberExpression", &t.base);
    push_entry(&mut o, "object", expr_json(&t.object));
    let property = match &*t.property {
        MemberProp::Expression(e) => expr_json(e),
        MemberProp::Identifier(i) => ident_json(i),
    };
    push_entry(&mut o, "property", property);
    push_entry(&mut o, "computed", Json::Bool(t.computed));
    push_flag(&mut o, "optional", t.optional);
    Json::Object(o)
}

fn rest_json(t: &RestElement) -> (r: Json)
    ensures
        json_value(r) == wire_rest(*t),
    decreases t,
{
    broadcast use group_json;

    let mut o = start_node("RestElement", &t.base);
    push_entry(&mut o, "argument", lval_json(&t.argument));
    Json::Object(o)
}

fn lval_json(t: &LVal) -> (r: Json)
    ensures
        json_value(r) == wire_lval(*t),
    decreases t,
{
    match t {
        LVal::Identifier(x) => ident_json(x),
        LVal::MemberExpression(x) => member_json(x),
        LVal::RestElement(x) => rest_json(x),
    }
}

fn param_json(t: &Param) -> (r: Json)
    ensures
        json_value(r) == wire_param(*t),
    decreases t,
{
    match t {
        Param::Identifier(x) => ident_json(x),
        Param::RestElement(x) => rest_json(x),
    }
}

fn directive_json(d: &Directive) -> (r: Json)
    ensures
        json_value(r) == wire_directive(*d),
{
    broadcast use group_json;

    let mut lit = start_node("DirectiveLiteral", &d.value.base);
    push_entry(&mut lit, "value", Json::Str(d.value.value.clone()));
    let mut o = start_node("Directive", &d.base);
    push_entry(&mut o, "value", Json::Object(lit));
    Json::Object(o)
}

fn directives_json(v: &Vec<Directive>) -> (r: Json)
    ensures
        json_value(r) == wire_directives(v@),
{
    broadcast use group_json;

    let mut arr: Vec<Json> = Vec::new();
    let mut i: usize = 0;
    while i < v.len()
        invariant
            i <= v@.len(),
            arr@.len() == i,
            forall|j: int| 0 <= j < i ==> json_value(#[trigger] arr@[j]) == wire_directive(v@[j]),
        decreases v@.len() - i,
    {
        arr.push(directive_json(&v[i]));
        i = i + 1;
    }
    assert(values_of(arr@) =~= wire_directives(v@)->Array_0);
    Json::Array(arr)
}

fn block_json(t: &BlockStatement) -> (r: Json)
    ensures
        json_value(r) == wire_block(*t),
    decreases t,
{
    broadcast use group_json;

    let mut o = start_node("BlockStatement", &t.base);
    push_entry(&mut o, "body", stmts_json(&t.body));
    push_entry(&mut o, "directives", directives_json(&t.directives));
    Json::Object(o)
}

fn opt_expr_json(t: &Option<Expression>) -> (r: Option<Json>)
    ensures
        opt_value(r) == wire_opt_expr(*t),
    decreases t,
{
    match t {
        Some(e) => Some(expr_json(e)),
        None => None,
    }
}

fn case_json(t: &SwitchCase) -> (r: Json)
    ensures
        json_value(r) == wire_case(*t),
    decreases t,
{
    broadcast use group_json;

    let mut o = start_node("SwitchCase", &t.base);
    push_opt(&mut o, "test", opt_expr_json(&t.test));
    push_entry(&mut o, "consequent", stmts_json(&t.consequent));
    Json::Object(o)
}

fn declarator_json(t: &VariableDeclarator) -> (r: Json)
    ensures
        json_value(r) == wire_declarator(*t),
    decreases t,
{
    broadcast use group_json;

    let mut o = start_node("VariableDeclarator", &t.base);
    push_entry(&mut o, "id", lval_json(&t.id));
    let init = match &t.init {
        Some(e) => Some(expr_json(e)),
        None => None,
    };
    push_opt(&mut o, "init", init);
    push_flag(&mut o, "definite", t.definite);
    Json::Object(o)
}

fn var_decl_json(t: &VariableDeclaration) -> (r: Json)
    ensures
        json_value(r) == wire_var_decl(*t),
    decreases t,
{
    broadcast use group_json;

    let mut o = start_node("VariableDeclaration", &t.base);
    push_entry(&mut o, "kind", Json::Str(t.kind.as_str().to_owned()));
    push_entry(&mut o, "declarations", declarators_json(&t.declarations));
    push_flag(&mut o, "declare", t.declare);
    Json::Object(o)
}

fn catch_json(t: &CatchClause) -> (r: Json)
    ensures
        json_value(r) == wire_catch(*t),
    decreases t,
{
    broadcast use group_json;

    let mut o = start_node("CatchClause", &t.base);
    let param = match &t.param {
        Some(CatchParam::Identifier(i)) => Some(ident_json(i)),
        None => None,
    };
    push_opt(&mut o, "param", param);
    push_entry(&mut o, "body", block_json(&t.body));
    Json::Object(o)
}

fn if_statement_json(x: &IfStatement) -> (r: Json)
    ensures
        json_value(r) == wire_stmt(Statement::IfStatement(*x)),
    decreases x,
{
    broadcast use group_json;

    let mut o = start_node("IfStatement", &x.base);
    push_entry(&mut o, "test", expr_json(&x.test));
    push_entry(&mut o, "consequent", stmt_json(&x.consequent));
    let alternate = match &x.alternate {
        Some(a) => Some(stmt_json(a)),
        None => None,
    };
    push_opt(&mut o, "alternate", alternate);
    Json::Object(o)
}

fn switch_statement_json(x: &SwitchStatement) -> (r: Json)
    ensures
        json_value(r) == wire_stmt(Statement::SwitchStatement(*x)),
    decreases x,
{
    broadcast use group_json;

    let mut o = start_node("SwitchStatement", &x.base);
    push_entry(&mut o, "descriminant", expr_json(&x.descriminant));
    push_entry(&mut o, "cases", cases_json(&x.cases));
    Json::Object(o)
}

fn labeled_statement_json(x: &LabeledStatement) -> (r: Json)
    ensures
        json_value(r) == wire_stmt(Statement::LabeledStatement(*x)),
    decreases x,
{
    broadcast use group_json;

    let mut o = start_node("LabeledStatement", &x.base);
    push_entry(&mut o, "label", ident_json(&x.label));
    push_entry(&mut o, "body", stmt_json(&x.body));
    Json::Object(o)
}

fn for_statement_json(x: &ForStatement) -> (r: Json)
    ensures
        json_value(r) == wire_stmt(Statement::ForStatement(*x)),
    decreases x,
{
    broadcast use group_json;

    let mut o = start_node("ForStatement", &x.base);
    let init = match &x.init {
        Some(ForInit::VariableDeclaration(v)) => Some(var_decl_json(v)),
        Some(ForInit::Expression(e)) => Some(expr_json(e)),
        None => None,
    };
    push_opt(&mut o, "init", init);
    push_opt(&mut o, "test", opt_expr_json(&x.test));
    push_opt(&mut o, "update", opt_expr_json(&x.update));
    push_entry(&mut o, "body", stmt_json(&x.body));
    Json::Object(o)
}

fn for_in_statement_json(x: &ForInStatement) -> (r: Json)
    ensures
        json_value(r) == wire_stmt(Statement::ForInStatement(*x)),
    decreases x,
{
    broadcast use group_json;

    let mut o = start_node("ForInStatement", &x.base);
    let left = match &x.left {
        ForInLeft::VariableDeclaration(v) => var_decl_json(v),
        ForInLeft::LVal(l) => lval_json(l),
    };
    push_entry(&mut o, "left", left);
    push_entry(&mut o, "right", expr_json(&x.right));
    push_entry(&mut o, "body", stmt_json(&x.body));
    Json::Object(o)
}

fn try_statement_json(x: &TryStatement) -> (r: Json)
    ensures
        json_value(r) == wire_stmt(Statement::TryStatement(*x)),
    decreases x,
{
    broadcast use group_json;

    let mut o = start_node("TryStatement", &x.base);
    push_entry(&mut o, "block", block_json(&x.block));
    let handler = match &x.handler {
        Some(h) => Some(catch_json(h)),
        None => None,
    };
    push_opt(&mut o, "handler", handler);
    let finalizer = match &x.finalizer {
        Some(f) => Some(block_json(f)),
        None => None,
    };
    push_opt(&mut o, "finalizer", finalizer);
    Json::Object(o)
}

fn function_declaration_json(x: &FunctionDeclaration) -> (r: Json)
    ensures
        json_value(r) == wire_stmt(Statement::FunctionDeclaration(*x)),
    decreases x,
{
    broadcast use group_json;

    let mut o = start_node("FunctionDeclaration", &x.base);
    push_opt(&mut o, "id", opt_ident_json(&x.id));
    push_entry(&mut o, "params", params_json(&x.params));
    push_entry(&mut o, "body", block_json(&x.body));
    push_flag(&mut o, "generator", x.generator);
    push_flag(&mut o, "async", x.is_async);
    Json::Object(o)
}

/// The wire form of a statement.
pub fn stmt_json(t: &Statement) -> (r: Json)
    ensures
        json_value(r) == wire_stmt(*t),
    decreases t,
{
    broadcast use group_json;

    match t {
        Statement::ExpressionStatement(x) => {
            let mut o = start_node("ExpressionStatement", &x.base);
            push_entry(&mut o, "expression", expr_json(&x.expression));
            Json::Object(o)
        },
        Statement::BlockStatement(x) => block_json(x),
        Statement::EmptyStatement(x) => Json::Object(start_node("EmptyStatement", &x.base)),
        Statement::DebuggerStatement(x) => Json::Object(start_node("DebuggerStatement", &x.base)),
        Statement::ReturnStatement(x) => {
            let mut o = start_node("ReturnStatement", &x.base);
            push_opt(&mut o, "argument", opt_expr_json(&x.argument));
            Json::Object(o)
        },
        Statement::IfStatement(x) => if_statement_json(x),
        Statement::WhileStatement(x) => {
            let mut o = start_node("WhileStatement", &x.base);
            push_entry(&mut o, "test", expr_json(&x.test));
            push_entry(&mut o, "body", stmt_json(&x.body));
            Json::Object(o)
        },
        Statement::DoWhileStatement(x) => {
            let mut o = start_node("DoWhileStatement", &x.base);
            push_entry(&mut o, "test", expr_json(&x.test));
            push_entry(&mut o, "body", stmt_json(&x.body));
            Json::Object(o)
        },
        Statement::ThrowStatement(x) => {
            let mut o = start_node("ThrowStatement", &x.base);
            push_entry(&mut o, "argument", expr_json(&x.argument));
            Json::Object(o)
        },
        Statement::SwitchStatement(x) => switch_statement_json(x),
        Statement::BreakStatement(x) => {
            let mut o = start_node("BreakStatement", &x.base);
            push_opt(&mut o, "label", opt_ident_json(&x.label));
            Json::Object(o)
        },
        Statement::ContinueStatement(x) => {
            let mut o = start_node("ContinueStatement", &x.base);
            push_opt(&mut o, "label", opt_ident_json(&x.label));
            Json::Object(o)
        },
        Statement::LabeledStatement(x) => labeled_statement_json(x),
        Statement::ForStatement(x) => for_statement_json(x),
        Statement::ForInStatement(x) => for_in_statement_json(x),
        Statement::TryStatement(x) => try_statement_json(x),
        Statement::VariableDeclaration(x) => var_decl_json(x),
        Statement::FunctionDeclaration(x) => function_declaration_json(x),
        Statement::EnumDeclaration(x) => enum_json(x),
    }
}


fn boolean_members_json(v: &Vec<EnumBooleanMember>) -> (r: Vec<Json>)
    ensures
        values_of(r@) =~= Seq::new(v@.len(), |i: int| wire_boolean_member(v@[i])),
{
    let mut arr: Vec<Json> = Vec::new();
    let mut i: usize = 0;
    while i < v.len()
        invariant
            i <= v@.len(),
            arr@.len() == i,
            forall|j: int| 0 <= j < i ==> json_value(#[trigger] arr@[j]) == wire_boolean_member(v@[j]),
        decreases v@.len() - i,
    {
        arr.push(boolean_member_json(&v[i]));
        i = i + 1;
    }
    arr
}

fn number_members_json(v: &Vec<EnumNumberMember>) -> (r: Vec<Json>)
    ensures
        values_of(r@) =~= Seq::new(v@.len(), |i: int| wire_number_member(v@[i])),
{
    let mut arr: Vec<Json> = Vec::new();
    let mut i: usize = 0;
    while i < v.len()
        invariant
            i <= v@.len(),
            arr@.len() == i,
            forall|j: int| 0 <= j < i ==> json_value(#[trigger] arr@[j]) == wire_number_member(v@[j]),
        decreases v@.len() - i,
    {
        arr.push(number_member_json(&v[i]));
        i = i + 1;
    }
    arr
}

fn string_members_json(v: &Vec<EnumStringBodyMember>) -> (r: Vec<Json>)
    ensures
        values_of(r@) =~= Seq::new(v@.len(), |i: int| wire_string_member(v@[i])),
{
    let mut arr: Vec<Json> = Vec::new();
    let mut i: usize = 0;
    while i < v.len()
        invariant
            i <= v@.len(),
            arr@.len() == i,
            forall|j: int| 0 <= j < i ==> json_value(#[trigger] arr@[j]) == wire_string_member(v@[j]),
        decreases v@.len() - i,
    {
        arr.push(string_member_json(&v[i]));
        i = i + 1;
    }
    arr
}

fn defaulted_members_json(v: &Vec<EnumDefaultedMember>) -> (r: Vec<Json>)
    ensures
        values_of(r@) =~= Seq::new(v@.len(), |i: int| wire_defaulted_member(v@[i])),
{
    let mut arr: Vec<Json> = Vec::new();
    let mut i: usize = 0;
    while i < v.len()
        invariant
            i <= v@.len(),
            arr@.len() == i,
            forall|j: int| 0 <= j < i ==> json_value(#[trigger] arr@[j]) == wire_defaulted_member(v@[j]),
        decreases v@.len() - i,
    {
        arr.push(defaulted_member_json(&v[i]));
        i = i + 1;
    }
    arr
}

fn specifiers_json(v: &Vec<ModuleSpecifier>) -> (r: Vec<Json>)
    ensures
        values_of(r@) =~= Seq::new(v@.len(), |i: int| wire_specifier(v@[i])),
{
    let mut arr: Vec<Json> = Vec::new();
    let mut i: usize = 0;
    while i < v.len()
        invariant
            i <= v@.len(),
            arr@.len() == i,
            forall|j: int| 0 <= j < i ==> json_value(#[trigger] arr@[j]) == wire_specifier(v@[j]),
        decreases v@.len() - i,
    {
        arr.push(specifier_json(&v[i]));
        i = i + 1;
    }
    arr
}

fn items_json(v: &Vec<ModuleItemOutput>) -> (r: Vec<Json>)
    ensures
        values_of(r@) =~= Seq::new(v@.len(), |i: int| wire_item(v@[i])),
{
    let mut arr: Vec<Json> = Vec::new();
    let mut i: usize = 0;
    while i < v.len()
        invariant
            i <= v@.len(),
            arr@.len() == i,
            forall|j: int| 0 <= j < i ==> json_value(#[trigger] arr@[j]) == wire_item(v@[j]),
        decreases v@.len() - i,
    {
        arr.push(item_json(&v[i]));
        i = i + 1;
    }
    arr
}

fn defaulted_member_json(t: &EnumDefaultedMember) -> (r: Json)
    ensures
        json_value(r) == wire_defaulted_member(*t),
{
    broadcast use group_json;

    let mut o = start_node("EnumDefaultedMember", &t.base);
    push_entry(&mut o, "id", ident_json(&t.id));
    Json::Object(o)
}

fn boolean_member_json(t: &EnumBooleanMember) -> (r: Json)
    ensures
        json_value(r) == wire_boolean_member(*t),
{
    broadcast use group_json;

    let mut o = start_node("EnumBooleanMember", &t.base);
    push_entry(&mut o, "id", ident_json(&t.id));
    push_entry(&mut o, "init", boolean_literal_json(&t.init));
    Json::Object(o)
}

fn number_member_json(t: &EnumNumberMember) -> (r: Json)
    ensures
        json_value(r) == wire_number_member(*t),
{
    broadcast use group_json;

    let mut o = start_node("EnumNumberMember", &t.base);
    push_entry(&mut o, "id", ident_json(&t.id));
    push_entry(&mut o, "init", numeric_literal_json(&t.init));
    Json::Object(o)
}

fn string_member_json(t: &EnumStringBodyMember) -> (r: Json)
    ensures
        json_value(r) == wire_string_member(*t),
{
    broadcast use group_json;

    match t {
        EnumStringBodyMember::String(m) => {
            let mut o = start_node("EnumStringMember", &m.base);
            push_entry(&mut o, "id", ident_json(&m.id));
            push_entry(&mut o, "init", string_literal_json(&m.init));
            Json::Object(o)
        },
        EnumStringBodyMember::Defaulted(m) => defaulted_member_json(m),
    }
}

fn push_body_fields(
    o: &mut Vec<(String, Json)>,
    members: Vec<Json>,
    explicit_type: Option<bool>,
    has_unknown_members: bool,
)
    ensures
        json_entries(final(o)@) == body_fields(
            json_entries(old(o)@),
            values_of(members@),
            explicit_type,
            has_unknown_members,
        ),
{
    broadcast use group_json;

    push_entry(o, "members", Json::Array(members));
    push_flag(o, "explicitType", explicit_type);
    push_entry(o, "hasUnknownMembers", Json::Bool(has_unknown_members));
}

/// The wire form of an enumeration.
pub fn enum_json(t: &EnumDeclaration) -> (r: Json)
    ensures
        json_value(r) == wire_enum(*t),
{
    broadcast use group_json;

    let body = match &t.body {
        EnumBody::Boolean(b) => {
            let mut o = start_node("EnumBooleanBody", &b.base);
            push_body_fields(&mut o, boolean_members_json(&b.members), Some(b.explicit_type), b.has_unknown_members);
            Json::Object(o)
        },
        EnumBody::Number(b) => {
            let mut o = start_node("EnumNumberBody", &b.base);
            push_body_fields(&mut o, number_members_json(&b.members), Some(b.explicit_type), b.has_unknown_members);
            Json::Object(o)
        },
        EnumBody::String(b) => {
            let mut o = start_node("EnumStringBody", &b.base);
            push_body_fields(&mut o, string_members_json(&b.members), Some(b.explicit_type), b.has_unknown_members);
            Json::Object(o)
        },
        EnumBody::Symbol(b) => {
            let mut o = start_node("EnumSymbolBody", &b.base);
            push_body_fields(&mut o, defaulted_members_json(&b.members), None, b.has_unknown_members);
            Json::Object(o)
        },
    };
    let mut o = start_node("EnumDeclaration", &t.base);
    push_entry(&mut o, "id", ident_json(&t.id));
    push_entry(&mut o, "body", body);
    Json::Object(o)
}

fn specifier_json(t: &ModuleSpecifier) -> (r: Json)
    ensures
        json_value(r) == wire_specifier(*t),
{
    broadcast use group_json;

    match t {
        ModuleSpecifier::ImportSpecifier(x) => {
            let mut o = start_node("ImportSpecifier", &x.base);
            push_entry(&mut o, "local", ident_json(&x.local));
            push_entry(&mut o, "imported", ident_json(&x.imported));
            Json::Object(o)
        },
        ModuleSpecifier::ImportDefaultSpecifier(x) => {
            let mut o = start_node("ImportDefaultSpecifier", &x.base);
            push_entry(&mut o, "local", ident_json(&x.local));
            Json::Object(o)
        },
        ModuleSpecifier::ImportNamespaceSpecifier(x) => {
            let mut o = start_node("ImportNamespaceSpecifier", &x.base);
            push_entry(&mut o, "local", ident_json(&x.local));
            Json::Object(o)
        },
    }
}

fn import_json(t: &ImportDeclaration) -> (r: Json)
    ensures
        json_value(r) == wire_import(*t),
{
    broadcast use group_json;

    let mut o = start_node("ImportDeclaration", &t.base);
    push_entry(&mut o, "specifiers", Json::Array(specifiers_json(&t.specifiers)));
    push_entry(&mut o, "source", string_literal_json(&t.source));
    Json::Object(o)
}

/// The wire form of a module item: the node it holds.
pub fn item_json(t: &ModuleItemOutput) -> (r: Json)
    ensures
        json_value(r) == wire_item(*t),
{
    match t {
        ModuleItemOutput::ModuleDecl(ModuleDeclaration::ImportDeclaration(d)) => import_json(d),
        ModuleItemOutput::Stmt(s) => stmt_json(s),
    }
}

impl Program {
    /// The wire form of a whole program.
    pub fn to_json(&self) -> (r: Json)
        ensures
            json_value(r) == wire_program(*self),
    {
        broadcast use group_json;

        let mut o = start_node("Program", &self.base);
        push_entry(&mut o, "body", Json::Array(items_json(&self.body)));
        push_entry(&mut o, "directives", directives_json(&self.directives));
        push_entry(&mut o, "sourceType", Json::Str(self.source_type.as_str().to_owned()));
        let interpreter = match &self.interpreter {
            Some(d) => {
                let mut i = start_node("InterpreterDirective", &d.base);
                push_entry(&mut i, "value", Json::Str(d.value.clone()));
                Some(Json::Object(i))
            },
            None => None,
        };
        push_opt(&mut o, "interpreter", interpreter);
        push_entry(&mut o, "sourceFile", Json::Str(self.source_file.clone()));
        Json::Object(o)
    }
}

} // verus!
