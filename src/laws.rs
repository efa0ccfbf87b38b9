//! Properties that hold of every conversion and every wire document.
use vstd::prelude::*;
use crate::json::JsonV;
use crate::ast::{BaseNode, Identifier, BinaryExpression, Binary, Expression, FunctionDeclaration, Statement};
use crate::source::{Ident, FnDecl, Stmt, Decl};
use crate::convert::{stmt_rep, ident_rep, function_rep, item_rep};
use crate::source::{ModuleDecl, ModuleItem};
use crate::ast::ModuleItemOutput;
use crate::wire::{Entries, head, with_flag, wire_ident, wire_expr, wire_stmt, wire_comments};

verus! {

pub open spec fn has_key(o: Entries, k: Seq<char>) -> bool {
    exists|i: int| 0 <= i < o.len() && (#[trigger] o[i]).0 == k
}

pub open spec fn envelope_key(k: Seq<char>) -> bool {
    k == "type"@ || k == "leadingComments"@ || k == "innerComments"@ || k == "trailingComments"@
        || k == "start"@ || k == "end"@ || k == "loc"@ || k == "extra"@
}

/// The opening of every node's object: its three comment lists are always
/// written, even when empty, while its offsets, line/column pair and extra
/// data are written exactly when present. It holds no other key.
pub proof fn lemma_envelope_fields(tag: Seq<char>, b: BaseNode)
    ensures
        head(tag, b).contains(("leadingComments"@, wire_comments(b.leading_comments@))),
        head(tag, b).contains(("innerComments"@, wire_comments(b.inner_comments@))),
        head(tag, b).contains(("trailingComments"@, wire_comments(b.trailing_comments@))),
        has_key(head(tag, b), "start"@) <==> b.start is Some,
        has_key(head(tag, b), "end"@) <==> b.end is Some,
        has_key(head(tag, b), "loc"@) <==> b.loc is Some,
        has_key(head(tag, b), "extra"@) <==> b.extra is Some,
        forall|i: int| 0 <= i < head(tag, b).len() ==> envelope_key(#[trigger] head(tag, b)[i].0),
{
    reveal(head);
    reveal_strlit("type");
    reveal_strlit("leadingComments");
    reveal_strlit("innerComments");
    reveal_strlit("trailingComments");
    reveal_strlit("start");
    reveal_strlit("end");
    reveal_strlit("loc");
    reveal_strlit("extra");
    assert("start"@[0] != "extra"@[0]);
    assert("end"@[0] != "loc"@[0]);
    let h = head(tag, b);
    assert(h[1] == ("leadingComments"@, wire_comments(b.leading_comments@)));
    assert(h[2] == ("innerComments"@, wire_comments(b.inner_comments@)));
    assert(h[3] == ("trailingComments"@, wire_comments(b.trailing_comments@)));
    if b.start is Some {
        assert(h[4].0 == "start"@);
    }
    if b.end is Some {
        let k = if b.start is Some { 5int } else { 4int };
        assert(h[k].0 == "end"@);
    }
    if b.loc is None {
        assert forall|i: int| 0 <= i < h.len() implies (#[trigger] h[i]).0 != "loc"@ by {
            assert("loc"@.len() == 3);
            assert("end"@[0] != "loc"@[0]);
        }
    }
    if b.loc is Some {
        let k = 4 + (if b.start is Some { 1int } else { 0int }) + (if b.end is Some { 1int } else { 0int });
        assert(h[k].0 == "loc"@);
    }
    if b.extra is Some {
        assert(h[h.len() - 1].0 == "extra"@);
    }
}

/// An optional flag appended to an object that lacks its key is present
/// exactly when it is set: an unset flag is left out, never written `null`.
pub proof fn lemma_unset_flag_omitted(s: Entries, k: Seq<char>, o: Option<bool>)
    requires
        !has_key(s, k),
    ensures
        has_key(with_flag(s, k, o), k) <==> o is Some,
        o matches Some(b) ==> with_flag(s, k, o).contains((k, JsonV::Bool(b))),
{
    if let Some(b) = o {
        assert(with_flag(s, k, o)[s.len() as int] == (k, JsonV::Bool(b)));
    } else {
        assert(with_flag(s, k, o) == s);
    }
}

/// An identifier's `optional` key is written exactly when the flag is set.
pub proof fn lemma_identifier_optional(t: Identifier)
    ensures
        has_key(wire_ident(t)->Object_0, "optional"@) <==> t.optional is Some,
{
    lemma_envelope_fields("Identifier"@, t.base);
    reveal_strlit("type");
    reveal_strlit("leadingComments");
    reveal_strlit("innerComments");
    reveal_strlit("trailingComments");
    reveal_strlit("start");
    reveal_strlit("end");
    reveal_strlit("loc");
    reveal_strlit("extra");
    reveal_strlit("optional");
    reveal_strlit("name");
    assert("optional"@.len() == 8);
    assert("name"@.len() == 4);
    let h = head("Identifier"@, t.base);
    let s = h.push(("name"@, JsonV::Str(t.name@)));
    assert forall|i: int| 0 <= i < s.len() implies (#[trigger] s[i]).0 != "optional"@ by {
        if i < h.len() {
            assert(envelope_key(h[i].0));
        }
    }
    lemma_unset_flag_omitted(s, "optional"@, t.optional);
}

/// A source identifier's name reaches the wire unchanged, under `name`.
pub proof fn lemma_name_on_wire(t: Identifier, s: Ident, text: Seq<u8>)
    requires
        ident_rep(t, s, text),
    ensures
        wire_ident(t)->Object_0.contains(("name"@, JsonV::Str(s.sym@))),
{
    let h = head("Identifier"@, t.base);
    let e = h.push(("name"@, JsonV::Str(t.name@)));
    assert(e[h.len() as int] == ("name"@, JsonV::Str(s.sym@)));
    if let Some(b) = t.optional {
        assert(wire_ident(t)->Object_0[h.len() as int] == e[h.len() as int]);
    }
}

/// A source function's `async` flag reaches the wire, renamed `async`,
/// with the same value.
pub proof fn lemma_async_on_wire(t: FunctionDeclaration, f: FnDecl, text: Seq<u8>)
    requires
        stmt_rep(Statement::FunctionDeclaration(t), Stmt::Decl(Decl::Fn(f)), text),
    ensures
        wire_stmt(Statement::FunctionDeclaration(t))->Object_0.contains(
            ("async"@, JsonV::Bool(f.function.is_async)),
        ),
{
    assert(function_rep(t.base, t.params, t.body, t.generator, t.is_async, f.function, text));
    assert(t.is_async == Some(f.function.is_async));
    let o = wire_stmt(Statement::FunctionDeclaration(t))->Object_0;
    assert(o[o.len() - 1] == ("async"@, JsonV::Bool(f.function.is_async)));
}

/// A binary operator is written as its token, under `operator`.
pub proof fn lemma_operator_token_on_wire(t: BinaryExpression)
    ensures
        wire_expr(Expression::Binary(Binary::BinaryExpression(t)))->Object_0.contains(
            ("operator"@, JsonV::Str(t.operator.token())),
        ),
{
    let h = head("BinaryExpression"@, t.base);
    let o = wire_expr(Expression::Binary(Binary::BinaryExpression(t)))->Object_0;
    assert(o[h.len() as int] == ("operator"@, JsonV::Str(t.operator.token())));
}

/// A function declaration whose generator and async flags are unset is
/// written without those keys, and without `id` when it has no name; its
/// parameter list and body are always written.
pub proof fn lemma_function_unset_fields_omitted(t: FunctionDeclaration)
    requires
        t.generator is None,
        t.is_async is None,
    ensures
        !has_key(wire_stmt(Statement::FunctionDeclaration(t))->Object_0, "generator"@),
        !has_key(wire_stmt(Statement::FunctionDeclaration(t))->Object_0, "async"@),
        t.id is None ==> !has_key(wire_stmt(Statement::FunctionDeclaration(t))->Object_0, "id"@),
        has_key(wire_stmt(Statement::FunctionDeclaration(t))->Object_0, "params"@),
        has_key(wire_stmt(Statement::FunctionDeclaration(t))->Object_0, "body"@),
{
    lemma_envelope_fields("FunctionDeclaration"@, t.base);
    reveal_strlit("type");
    reveal_strlit("leadingComments");
    reveal_strlit("innerComments");
    reveal_strlit("trailingComments");
    reveal_strlit("start");
    reveal_strlit("end");
    reveal_strlit("loc");
    reveal_strlit("extra");
    reveal_strlit("generator");
    reveal_strlit("async");
    reveal_strlit("id");
    reveal_strlit("params");
    reveal_strlit("body");
    assert("generator"@.len() == 9);
    assert("async"@.len() == 5);
    assert("id"@.len() == 2);
    assert("params"@.len() == 6);
    assert("body"@.len() == 4);
    assert("async"@[0] != "start"@[0]);
    assert("async"@[0] != "extra"@[0]);
    let h = head("FunctionDeclaration"@, t.base);
    let o = wire_stmt(Statement::FunctionDeclaration(t))->Object_0;
    let n = o.len();
    assert(o[n - 1].0 == "body"@);
    assert(o[n - 2].0 == "params"@);
    assert forall|i: int| 0 <= i < n implies (#[trigger] o[i]).0 != "generator"@ && o[i].0 != "async"@
        && (t.id is None ==> o[i].0 != "id"@) by {
        if i < h.len() {
            assert(o[i] == h[i]);
            assert(envelope_key(h[i].0));
        }
    }
}

/// A module declaration of the source always converts to a module
/// declaration, never to a plain statement; narrowing such an item to a
/// statement is refused (`ModuleItemOutput::into_statement`).
pub proof fn lemma_module_declaration_stays_one(t: ModuleItemOutput, d: ModuleDecl, text: Seq<u8>)
    requires
        item_rep(t, ModuleItem::ModuleDecl(d), text),
    ensures
        t is ModuleDecl,
        !(t is Stmt),
{
}

} // verus!
