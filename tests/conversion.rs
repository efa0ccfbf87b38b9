use babel_compat::ast::{
    Comment, Expression, Literal, LVal, ModuleDeclaration, ModuleItemOutput, Statement,
};
use babel_compat::context::{Context, PendingComment};
use babel_compat::convert::{statements_from_items, ConvertError};
use babel_compat::decl::{EnumBody, EnumStringBodyMember};
use babel_compat::json::Json;
use babel_compat::ops::{BinaryOp, LogicalOp, SourceType, UnaryOp, UpdateOp, VariableDeclarationKind};
use babel_compat::source::{
    self, BinExpr, Bool, CommentKind, Decl, EnumDecl, EnumMember, Expr, ExprStmt, Ident,
    ImportDecl, ImportNamedSpecifier, ImportSpecifier, Lit, Module, ModuleDecl, ModuleItem,
    Number, Pat, Script, SourceComment, Span, Stmt, Str, VarDecl, VarDeclKind, VarDeclarator,
};

fn sp(lo: usize, hi: usize) -> Span {
    Span { lo, hi }
}

fn ident(lo: usize, name: &str) -> Ident {
    Ident { span: sp(lo, lo + name.len()), sym: name.to_string(), optional: false }
}

fn ctx(text: &str) -> Context {
    Context::new(text.as_bytes().to_vec(), Vec::new(), Vec::new()).unwrap()
}

fn get<'a>(j: &'a Json, key: &str) -> Option<&'a Json> {
    match j {
        Json::Object(entries) => entries.iter().find(|(k, _)| k == key).map(|(_, v)| v),
        _ => None,
    }
}

fn get_str<'a>(j: &'a Json, key: &str) -> &'a str {
    match get(j, key) {
        Some(Json::Str(s)) => s.as_str(),
        other => panic!("no string under {}: {:?}", key, other),
    }
}

fn const_x_module() -> source::Program {
    // const x = 1;
    let decl = VarDecl {
        span: sp(0, 12),
        kind: VarDeclKind::Const,
        declare: false,
        decls: vec![VarDeclarator {
            span: sp(6, 11),
            name: Pat::Ident(ident(6, "x")),
            init: Some(Box::new(Expr::Lit(Lit::Num(Number { span: sp(10, 11), value: 1.0f64.to_bits() })))),
            definite: false,
        }],
    };
    source::Program::Module(Module {
        span: sp(0, 12),
        body: vec![ModuleItem::Stmt(Stmt::Decl(Decl::Var(decl)))],
        shebang: None,
    })
}

#[test]
fn const_declaration_in_module() {
    let mut c = ctx("const x = 1;");
    let program = const_x_module().babelify(&mut c).unwrap();
    assert_eq!(program.source_type, SourceType::Module);
    assert_eq!(program.body.len(), 1);
    match &program.body[0] {
        ModuleItemOutput::Stmt(Statement::VariableDeclaration(v)) => {
            assert_eq!(v.kind, VariableDeclarationKind::Const);
            assert_eq!(v.declarations.len(), 1);
            let d = &v.declarations[0];
            match &d.id {
                LVal::Identifier(i) => assert_eq!(i.name, "x"),
                other => panic!("unexpected id {:?}", other),
            }
            match d.init.as_deref() {
                Some(Expression::Literal(Literal::NumericLiteral(n))) => {
                    assert_eq!(f64::from_bits(n.value), 1.0)
                },
                other => panic!("unexpected init {:?}", other),
            }
            assert_eq!(v.base.start, Some(0));
            assert_eq!(v.base.end, Some(12));
        },
        other => panic!("unexpected item {:?}", other),
    }
    let json = program.to_json();
    assert_eq!(get_str(&json, "type"), "Program");
    assert_eq!(get_str(&json, "sourceType"), "module");
    let body = match get(&json, "body") {
        Some(Json::Array(items)) => items,
        other => panic!("no body: {:?}", other),
    };
    assert_eq!(get_str(&body[0], "type"), "VariableDeclaration");
    assert_eq!(get_str(&body[0], "kind"), "const");
    let decls = match get(&body[0], "declarations") {
        Some(Json::Array(d)) => d,
        other => panic!("no declarations: {:?}", other),
    };
    let id = get(&decls[0], "id").unwrap();
    assert_eq!(get_str(id, "type"), "Identifier");
    assert_eq!(get_str(id, "name"), "x");
    let init = get(&decls[0], "init").unwrap();
    assert_eq!(get_str(init, "type"), "NumericLiteral");
    match get(init, "value") {
        Some(Json::Number(bits)) => assert_eq!(f64::from_bits(*bits), 1.0),
        other => panic!("unexpected value {:?}", other),
    }
}

#[test]
fn shebang_becomes_interpreter() {
    let text = "#!/usr/bin/env node\nx;";
    let program = source::Program::Script(Script {
        span: sp(0, text.len()),
        body: vec![Stmt::Expr(ExprStmt { span: sp(20, 22), expr: Box::new(Expr::Ident(ident(20, "x"))) })],
        shebang: Some("/usr/bin/env node".to_string()),
    });
    let mut c = ctx(text);
    let out = program.babelify(&mut c).unwrap();
    assert_eq!(out.source_type, SourceType::Script);
    let interp = out.interpreter.as_ref().unwrap();
    assert_eq!(interp.value, "#!/usr/bin/env node");
    assert_eq!(interp.base.start, Some(0));
    assert_eq!(interp.base.end, Some(19));
    assert_eq!(text.as_bytes()[19], b'\n');
    let json = out.to_json();
    let i = get(&json, "interpreter").unwrap();
    assert_eq!(get_str(i, "type"), "InterpreterDirective");
    assert_eq!(get_str(i, "value"), "#!/usr/bin/env node");
}

#[test]
fn string_enum_with_defaulted_member() {
    // enum E {A = "a", B}
    let text = "enum E {A = \"a\", B}";
    let e = EnumDecl {
        span: sp(0, text.len()),
        id: ident(5, "E"),
        explicit_type: None,
        has_unknown_members: false,
        members: vec![
            EnumMember {
                span: sp(8, 15),
                id: ident(8, "A"),
                init: Some(Lit::Str(Str { span: sp(12, 15), value: "a".to_string() })),
            },
            EnumMember { span: sp(17, 18), id: ident(17, "B"), init: None },
        ],
    };
    let program = source::Program::Module(Module {
        span: sp(0, text.len()),
        body: vec![ModuleItem::Stmt(Stmt::Decl(Decl::Enum(e)))],
        shebang: None,
    });
    let mut c = ctx(text);
    let out = program.babelify(&mut c).unwrap();
    match &out.body[0] {
        ModuleItemOutput::Stmt(Statement::EnumDeclaration(d)) => {
            assert_eq!(d.id.name, "E");
            match &d.body {
                EnumBody::String(b) => {
                    assert_eq!(b.members.len(), 2);
                    match &b.members[0] {
                        EnumStringBodyMember::String(m) => {
                            assert_eq!(m.id.name, "A");
                            assert_eq!(m.init.value, "a");
                        },
                        other => panic!("unexpected first member {:?}", other),
                    }
                    match &b.members[1] {
                        EnumStringBodyMember::Defaulted(m) => assert_eq!(m.id.name, "B"),
                        other => panic!("unexpected second member {:?}", other),
                    }
                },
                other => panic!("unexpected body {:?}", other),
            }
        },
        other => panic!("unexpected item {:?}", other),
    }
    let json = out.to_json();
    let body = match get(&json, "body") {
        Some(Json::Array(items)) => items,
        _ => panic!("no body"),
    };
    let enum_body = get(&body[0], "body").unwrap();
    assert_eq!(get_str(enum_body, "type"), "EnumStringBody");
    let members = match get(enum_body, "members") {
        Some(Json::Array(m)) => m,
        _ => panic!("no members"),
    };
    assert_eq!(get_str(&members[0], "type"), "EnumStringMember");
    assert_eq!(get_str(&members[1], "type"), "EnumDefaultedMember");
}

fn import_module() -> (String, source::Program) {
    // import {a} from "m";
    let text = "import {a} from \"m\";".to_string();
    let d = ImportDecl {
        span: sp(0, 20),
        specifiers: vec![ImportSpecifier::Named(ImportNamedSpecifier {
            span: sp(8, 9),
            local: ident(8, "a"),
            imported: None,
        })],
        src: Str { span: sp(16, 19), value: "m".to_string() },
    };
    let p = source::Program::Module(Module {
        span: sp(0, 20),
        body: vec![ModuleItem::ModuleDecl(ModuleDecl::Import(d))],
        shebang: None,
    });
    (text, p)
}

#[test]
fn import_is_module_declaration_and_cannot_narrow() {
    let (text, p) = import_module();
    let mut c = ctx(&text);
    let out = p.babelify(&mut c).unwrap();
    match &out.body[0] {
        ModuleItemOutput::ModuleDecl(ModuleDeclaration::ImportDeclaration(d)) => {
            assert_eq!(d.source.value, "m");
            assert_eq!(d.specifiers.len(), 1);
        },
        other => panic!("unexpected item {:?}", other),
    }
    assert_eq!(statements_from_items(out.body).unwrap_err(), ConvertError::IllegalConversion);
}

#[test]
fn single_import_item_does_not_narrow() {
    let (text, p) = import_module();
    let mut c = ctx(&text);
    let mut out = p.babelify(&mut c).unwrap();
    let item = out.body.pop().unwrap();
    assert_eq!(item.into_statement().unwrap_err(), ConvertError::IllegalConversion);
}

#[test]
fn plain_statements_narrow_in_order() {
    let mut c = ctx("const x = 1;");
    let out = const_x_module().babelify(&mut c).unwrap();
    let stmts = statements_from_items(out.body).unwrap();
    assert_eq!(stmts.len(), 1);
    assert!(matches!(stmts[0], Statement::VariableDeclaration(_)));
}

#[test]
fn operator_tokens() {
    assert_eq!(BinaryOp::Addition.as_str(), "+");
    assert_eq!(UnaryOp::Typeof.as_str(), "typeof");
    assert_eq!(LogicalOp::Nullish.as_str(), "??");
    assert_eq!(UpdateOp::Increment.as_str(), "++");
    assert_eq!(BinaryOp::UnsignedRightShift.as_str(), ">>>");
    assert_eq!(VariableDeclarationKind::Let.as_str(), "let");
}

fn binary(text_len: usize, op: source::BinaryOp) -> source::Program {
    // a OP b;  with single-character names at 0 and text_len - 2
    let e = Expr::Bin(BinExpr {
        span: sp(0, text_len - 1),
        op,
        left: Box::new(Expr::Ident(ident(0, "a"))),
        right: Box::new(Expr::Ident(ident(text_len - 2, "b"))),
    });
    source::Program::Script(Script {
        span: sp(0, text_len),
        body: vec![Stmt::Expr(ExprStmt { span: sp(0, text_len), expr: Box::new(e) })],
        shebang: None,
    })
}

fn first_expression_json(text: &str, op: source::BinaryOp) -> Json {
    let mut c = ctx(text);
    let out = binary(text.len(), op).babelify(&mut c).unwrap();
    let json = out.to_json();
    let body = match get(&json, "body") {
        Some(Json::Array(items)) => items,
        _ => panic!("no body"),
    };
    match get(&body[0], "expression") {
        Some(e) => match e {
            Json::Object(entries) => Json::Object(
                entries.iter().map(|(k, v)| (k.clone(), v.duplicate())).collect(),
            ),
            _ => panic!("not an object"),
        },
        None => panic!("no expression"),
    }
}

#[test]
fn addition_is_written_as_plus() {
    let e = first_expression_json("a + b;", source::BinaryOp::Add);
    assert_eq!(get_str(&e, "type"), "BinaryExpression");
    assert_eq!(get_str(&e, "operator"), "+");
}

#[test]
fn nullish_becomes_logical_expression() {
    let e = first_expression_json("a ?? b;", source::BinaryOp::NullishCoalescing);
    assert_eq!(get_str(&e, "type"), "LogicalExpression");
    assert_eq!(get_str(&e, "operator"), "??");
}

#[test]
fn unset_optional_fields_are_omitted() {
    let mut c = ctx("const x = 1;");
    let out = const_x_module().babelify(&mut c).unwrap();
    let json = out.to_json();
    let body = match get(&json, "body") {
        Some(Json::Array(items)) => items,
        _ => panic!("no body"),
    };
    assert!(get(&body[0], "declare").is_none());
    let decls = match get(&body[0], "declarations") {
        Some(Json::Array(d)) => d,
        _ => panic!("no declarations"),
    };
    assert!(get(&decls[0], "definite").is_none());
    let id = get(&decls[0], "id").unwrap();
    assert!(get(id, "optional").is_none());
    assert!(get(id, "extra").is_none());
    match get(id, "leadingComments") {
        Some(Json::Array(v)) => assert!(v.is_empty()),
        other => panic!("comment list missing: {:?}", other),
    }
    match get(id, "start") {
        Some(Json::UInt(n)) => assert_eq!(*n, 6),
        other => panic!("unexpected start {:?}", other),
    }
}

#[test]
fn async_flag_is_written_as_async() {
    // async function f() {}
    let text = "async function f() {}";
    let f = source::FnDecl {
        ident: ident(15, "f"),
        declare: false,
        function: source::Function {
            span: sp(0, 21),
            params: Vec::new(),
            body: source::BlockStmt { span: sp(19, 21), stmts: Vec::new() },
            is_generator: false,
            is_async: true,
        },
    };
    let p = source::Program::Script(Script {
        span: sp(0, 21),
        body: vec![Stmt::Decl(Decl::Fn(f))],
        shebang: None,
    });
    let mut c = ctx(text);
    let out = p.babelify(&mut c).unwrap();
    let json = out.to_json();
    let body = match get(&json, "body") {
        Some(Json::Array(items)) => items,
        _ => panic!("no body"),
    };
    assert_eq!(get_str(&body[0], "type"), "FunctionDeclaration");
    assert!(matches!(get(&body[0], "async"), Some(Json::Bool(true))));
    assert!(matches!(get(&body[0], "generator"), Some(Json::Bool(false))));
    assert!(get(&body[0], "is_async").is_none());
}

#[test]
fn span_outside_text_is_refused() {
    let mut c = ctx("const x");
    let err = const_x_module().babelify(&mut c).unwrap_err();
    assert_eq!(err, ConvertError::UnregisteredSpan(sp(0, 12)));
}

#[test]
fn mixed_enum_is_refused() {
    // enum E {A = true, B = 1}
    let text = "enum E {A = true, B = 1}";
    let e = EnumDecl {
        span: sp(0, text.len()),
        id: ident(5, "E"),
        explicit_type: None,
        has_unknown_members: false,
        members: vec![
            EnumMember { span: sp(8, 16), id: ident(8, "A"), init: Some(Lit::Bool(Bool { span: sp(12, 16), value: true })) },
            EnumMember {
                span: sp(18, 23),
                id: ident(18, "B"),
                init: Some(Lit::Num(Number { span: sp(22, 23), value: 1.0f64.to_bits() })),
            },
        ],
    };
    let p = source::Program::Script(Script {
        span: sp(0, text.len()),
        body: vec![Stmt::Decl(Decl::Enum(e))],
        shebang: None,
    });
    let mut c = ctx(text);
    assert_eq!(p.babelify(&mut c).unwrap_err(), ConvertError::UnsupportedEnum(sp(0, text.len())));
}

#[test]
fn comments_attach_once() {
    // /*a*/x; // b
    let text = "/*a*/x; // b";
    let leading = vec![PendingComment {
        pos: 5,
        comment: SourceComment { kind: CommentKind::Block, span: sp(0, 5), text: "a".to_string() },
    }];
    let trailing = vec![PendingComment {
        pos: 7,
        comment: SourceComment { kind: CommentKind::Line, span: sp(8, 12), text: " b".to_string() },
    }];
    let mut c = Context::new(text.as_bytes().to_vec(), leading, trailing).unwrap();
    let p = source::Program::Script(Script {
        span: sp(5, 12),
        body: vec![Stmt::Expr(ExprStmt { span: sp(5, 7), expr: Box::new(Expr::Ident(ident(5, "x"))) })],
        shebang: None,
    });
    let out = p.babelify(&mut c).unwrap();
    // the program starts at 5 and takes the leading comment first
    assert_eq!(out.base.leading_comments.len(), 1);
    match &out.base.leading_comments[0] {
        Comment::Block(b) => {
            assert_eq!(b.value, "a");
            assert_eq!(b.start, 0);
            assert_eq!(b.end, 5);
        },
        other => panic!("unexpected comment {:?}", other),
    }
    match &out.body[0] {
        ModuleItemOutput::Stmt(Statement::ExpressionStatement(s)) => {
            assert!(s.base.leading_comments.is_empty());
            assert_eq!(s.base.trailing_comments.len(), 1);
            match &s.expression {
                Expression::Identifier(i) => {
                    assert!(i.base.leading_comments.is_empty());
                    assert!(i.base.trailing_comments.is_empty());
                },
                other => panic!("unexpected expression {:?}", other),
            }
        },
        other => panic!("unexpected item {:?}", other),
    }
    assert!(c.leading.is_empty());
    assert!(c.trailing.is_empty());
}

#[test]
fn comment_outside_text_is_refused() {
    let leading = vec![PendingComment {
        pos: 0,
        comment: SourceComment { kind: CommentKind::Line, span: sp(0, 40), text: "x".to_string() },
    }];
    assert!(Context::new(b"x;".to_vec(), leading, Vec::new()).is_none());
}

#[test]
fn line_and_column_count_characters() {
    let c = ctx("ab\n\u{e9}c\nd");
    let p = c.line_col(0);
    assert_eq!((p.line, p.column), (1, 0));
    let p = c.line_col(2);
    assert_eq!((p.line, p.column), (1, 2));
    // after the two-byte é
    let p = c.line_col(5);
    assert_eq!((p.line, p.column), (2, 1));
    let p = c.line_col(7);
    assert_eq!((p.line, p.column), (3, 0));
}

#[test]
fn shebang_span_without_line_feed_takes_all() {
    let c = ctx("#!node");
    let s = c.shebang_span(sp(0, 6));
    assert_eq!(s, sp(0, 6));
}

#[test]
fn function_expression_widens_to_declaration() {
    let text = "(function g(){})";
    let e = Expr::Paren(source::ParenExpr {
        span: sp(0, 16),
        expr: Box::new(Expr::Fn(source::FnExpr {
            ident: Some(ident(10, "g")),
            function: source::Function {
                span: sp(1, 15),
                params: Vec::new(),
                body: source::BlockStmt { span: sp(13, 15), stmts: Vec::new() },
                is_generator: true,
                is_async: false,
            },
        })),
    });
    let mut c = ctx(text);
    let out = babel_compat::convert::convert_expr(&e, &mut c).unwrap();
    let inner = match out {
        Expression::ParenthesizedExpression(p) => *p.expression,
        other => panic!("unexpected {:?}", other),
    };
    let f = match inner {
        Expression::FunctionExpression(f) => f,
        other => panic!("unexpected {:?}", other),
    };
    let d: babel_compat::ast::FunctionDeclaration = f.into();
    assert_eq!(d.id.as_ref().unwrap().name, "g");
    assert_eq!(d.generator, Some(true));
    assert_eq!(d.is_async, Some(false));
    assert_eq!(d.base.start, Some(1));
}

#[test]
fn unclaimed_comment_goes_to_program_inner_slot() {
    // x; /*z*/
    let text = "x; /*z*/";
    let trailing = vec![PendingComment {
        pos: 8,
        comment: SourceComment { kind: CommentKind::Block, span: sp(3, 8), text: "z".to_string() },
    }];
    let mut c = Context::new(text.as_bytes().to_vec(), Vec::new(), trailing).unwrap();
    let p = source::Program::Script(Script {
        span: sp(0, 2),
        body: vec![Stmt::Expr(ExprStmt { span: sp(0, 2), expr: Box::new(Expr::Ident(ident(0, "x"))) })],
        shebang: None,
    });
    let out = p.babelify(&mut c).unwrap();
    assert!(out.base.trailing_comments.is_empty());
    assert_eq!(out.base.inner_comments.len(), 1);
    match &out.base.inner_comments[0] {
        Comment::Block(b) => assert_eq!(b.value, "z"),
        other => panic!("unexpected comment {:?}", other),
    }
    assert!(c.trailing.is_empty());
    let json = out.to_json();
    match get(&json, "innerComments") {
        Some(Json::Array(v)) => {
            assert_eq!(v.len(), 1);
            assert_eq!(get_str(&v[0], "type"), "CommentBlock");
            assert_eq!(get_str(&v[0], "value"), "z");
        },
        other => panic!("unexpected inner comments {:?}", other),
    }
}

#[test]
fn loops_jumps_and_try_convert() {
    // for (;;) { break; } try { } catch (e) { } finally { }
    let text = "for (;;) { break; } try { } catch (e) { } finally { }";
    let for_stmt = Stmt::For(source::ForStmt {
        span: sp(0, 19),
        init: None,
        test: None,
        update: None,
        body: Box::new(Stmt::Block(source::BlockStmt {
            span: sp(9, 19),
            stmts: vec![Stmt::Break(source::BreakStmt { span: sp(11, 17), label: None })],
        })),
    });
    let try_stmt = Stmt::Try(source::TryStmt {
        span: sp(20, 53),
        block: source::BlockStmt { span: sp(24, 27), stmts: Vec::new() },
        handler: Some(source::CatchClause {
            span: sp(28, 41),
            param: Some(ident(35, "e")),
            body: source::BlockStmt { span: sp(38, 41), stmts: Vec::new() },
        }),
        finalizer: Some(source::BlockStmt { span: sp(50, 53), stmts: Vec::new() }),
    });
    let p = source::Program::Script(Script { span: sp(0, 53), body: vec![for_stmt, try_stmt], shebang: None });
    let mut c = ctx(text);
    let out = p.babelify(&mut c).unwrap();
    let json = out.to_json();
    let body = match get(&json, "body") {
        Some(Json::Array(items)) => items,
        _ => panic!("no body"),
    };
    assert_eq!(get_str(&body[0], "type"), "ForStatement");
    assert!(get(&body[0], "init").is_none());
    let loop_body = get(&body[0], "body").unwrap();
    let inner = match get(loop_body, "body") {
        Some(Json::Array(items)) => items,
        _ => panic!("no loop body"),
    };
    assert_eq!(get_str(&inner[0], "type"), "BreakStatement");
    assert!(get(&inner[0], "label").is_none());
    assert_eq!(get_str(&body[1], "type"), "TryStatement");
    let handler = get(&body[1], "handler").unwrap();
    assert_eq!(get_str(handler, "type"), "CatchClause");
    assert_eq!(get_str(get(handler, "param").unwrap(), "name"), "e");
    assert_eq!(get_str(get(&body[1], "finalizer").unwrap(), "type"), "BlockStatement");
}

#[test]
fn object_literal_members() {
    // ({a, "b": 1, [c]: d, get e() {}})
    let text = "({a, \"b\": 1, [c]: d, get e() {}})";
    let obj = Expr::Object(source::ObjectLit {
        span: sp(1, 33),
        props: vec![
            source::Prop::Shorthand(ident(2, "a")),
            source::Prop::KeyValue(source::KeyValueProp {
                span: sp(5, 11),
                key: source::PropName::Str(Str { span: sp(5, 8), value: "b".to_string() }),
                value: Box::new(Expr::Lit(Lit::Num(Number { span: sp(10, 11), value: 1.0f64.to_bits() }))),
            }),
            source::Prop::KeyValue(source::KeyValueProp {
                span: sp(13, 19),
                key: source::PropName::Computed(source::ComputedPropName {
                    span: sp(13, 16),
                    expr: Box::new(Expr::Ident(ident(14, "c"))),
                }),
                value: Box::new(Expr::Ident(ident(18, "d"))),
            }),
            source::Prop::Method(source::MethodProp {
                kind: source::MethodKind::Getter,
                key: source::PropName::Ident(ident(25, "e")),
                function: source::Function {
                    span: sp(21, 32),
                    params: Vec::new(),
                    body: source::BlockStmt { span: sp(30, 32), stmts: Vec::new() },
                    is_generator: false,
                    is_async: false,
                },
            }),
        ],
    });
    let mut c = ctx(text);
    let out = babel_compat::convert::convert_expr(&obj, &mut c).unwrap();
    let json = babel_compat::wire::expr_json(&out);
    assert_eq!(get_str(&json, "type"), "ObjectExpression");
    let props = match get(&json, "properties") {
        Some(Json::Array(p)) => p,
        other => panic!("no properties {:?}", other),
    };
    assert_eq!(props.len(), 4);
    assert_eq!(get_str(&props[0], "type"), "ObjectProperty");
    assert!(matches!(get(&props[0], "shorthand"), Some(Json::Bool(true))));
    assert_eq!(get_str(get(&props[0], "value").unwrap(), "name"), "a");
    assert_eq!(get_str(get(&props[1], "key").unwrap(), "type"), "StringLiteral");
    assert!(matches!(get(&props[2], "computed"), Some(Json::Bool(true))));
    assert_eq!(get_str(&props[3], "type"), "ObjectMethod");
    assert_eq!(get_str(&props[3], "kind"), "get");
}

#[test]
fn arrow_with_expression_body() {
    // async (a, ...b) => a
    let text = "async (a, ...b) => a";
    let arrow = Expr::Arrow(source::ArrowExpr {
        span: sp(0, 20),
        params: vec![
            source::ParamPat::Ident(ident(7, "a")),
            source::ParamPat::Rest(source::RestPat { span: sp(10, 14), arg: Box::new(Pat::Ident(ident(13, "b"))) }),
        ],
        body: source::BlockStmtOrExpr::Expr(Box::new(Expr::Ident(ident(19, "a")))),
        is_async: true,
        is_generator: false,
    });
    let mut c = ctx(text);
    let out = babel_compat::convert::convert_expr(&arrow, &mut c).unwrap();
    let json = babel_compat::wire::expr_json(&out);
    assert_eq!(get_str(&json, "type"), "ArrowFunctionExpression");
    assert!(matches!(get(&json, "async"), Some(Json::Bool(true))));
    assert!(matches!(get(&json, "expression"), Some(Json::Bool(true))));
    let params = match get(&json, "params") {
        Some(Json::Array(p)) => p,
        other => panic!("no params {:?}", other),
    };
    assert_eq!(get_str(&params[1], "type"), "RestElement");
    assert_eq!(get_str(get(&params[1], "argument").unwrap(), "name"), "b");
    assert_eq!(get_str(get(&json, "body").unwrap(), "name"), "a");
}

#[test]
fn module_without_shebang_has_no_interpreter_key() {
    let mut c = ctx("const x = 1;");
    let out = const_x_module().babelify(&mut c).unwrap();
    assert!(out.interpreter.is_none());
    let json = out.to_json();
    assert!(get(&json, "interpreter").is_none());
    assert!(matches!(get(&json, "directives"), Some(Json::Array(v)) if v.is_empty()));
    for key in ["leadingComments", "innerComments", "trailingComments"] {
        assert!(matches!(get(&json, key), Some(Json::Array(v)) if v.is_empty()));
    }
}

#[test]
fn empty_script_keeps_its_lists() {
    let p = source::Program::Script(Script { span: sp(0, 0), body: Vec::new(), shebang: None });
    let mut c = ctx("");
    let json = p.babelify(&mut c).unwrap().to_json();
    assert!(matches!(get(&json, "body"), Some(Json::Array(v)) if v.is_empty()));
    assert!(matches!(get(&json, "directives"), Some(Json::Array(v)) if v.is_empty()));
    for key in ["leadingComments", "innerComments", "trailingComments"] {
        assert!(matches!(get(&json, key), Some(Json::Array(v)) if v.is_empty()));
    }
    assert!(get(&json, "interpreter").is_none());
}

#[test]
fn unset_function_flags_and_name_are_omitted() {
    let f = babel_compat::ast::FunctionExpression {
        base: babel_compat::ast::BaseNode {
            leading_comments: Vec::new(),
            inner_comments: Vec::new(),
            trailing_comments: Vec::new(),
            start: None,
            end: None,
            loc: None,
            extra: None,
        },
        id: None,
        params: Vec::new(),
        body: babel_compat::ast::BlockStatement {
            base: babel_compat::ast::BaseNode {
                leading_comments: Vec::new(),
                inner_comments: Vec::new(),
                trailing_comments: Vec::new(),
                start: None,
                end: None,
                loc: None,
                extra: None,
            },
            body: Vec::new(),
            directives: Vec::new(),
        },
        generator: None,
        is_async: None,
    };
    let d: babel_compat::ast::FunctionDeclaration = f.into();
    let json = babel_compat::wire::stmt_json(&Statement::FunctionDeclaration(d));
    for key in ["generator", "async", "id", "start", "end", "loc", "extra"] {
        assert!(get(&json, key).is_none(), "{} present", key);
    }
    assert!(matches!(get(&json, "params"), Some(Json::Array(v)) if v.is_empty()));
    assert_eq!(get_str(get(&json, "body").unwrap(), "type"), "BlockStatement");
}
