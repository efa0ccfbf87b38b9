//! The position and comment index: turns byte spans into offsets and
//! line/column pairs, and hands out each registered comment once.
use vstd::prelude::*;
use crate::ast::{BaseComment, BaseNode, Comment, LineCol, Loc};
use crate::source::{CommentKind, SourceComment, Span};
use vstd::seq_lib::lemma_multiset_commutative;

verus! {

/// The number of line feeds among the first `pos` bytes.
pub open spec fn newlines_before(text: Seq<u8>, pos: int) -> nat
    decreases pos,
{
    if pos <= 0 {
        0
    } else {
        newlines_before(text, pos - 1) + if text[pos - 1] == 10u8 { 1nat } else { 0nat }
    }
}

/// Whether a byte starts a UTF-8 encoded character.
pub open spec fn starts_char(b: u8) -> bool {
    b < 0x80u8 || b >= 0xC0u8
}

/// The number of characters between the last line feed before `pos`
/// (or the start of the text) and `pos`.
pub open spec fn column_at(text: Seq<u8>, pos: int) -> nat
    decreases pos,
{
    if pos <= 0 {
        0
    } else if text[pos - 1] == 10u8 {
        0
    } else {
        column_at(text, pos - 1) + if starts_char(text[pos - 1]) { 1nat } else { 0nat }
    }
}

/// Line (from 1) and column (from 0) of a byte offset.
pub open spec fn line_col_at(text: Seq<u8>, pos: int) -> LineCol {
    LineCol {
        line: (newlines_before(text, pos) + 1) as usize,
        column: column_at(text, pos) as usize,
    }
}

pub open spec fn loc_of(text: Seq<u8>, span: Span) -> Loc {
    Loc { start: line_col_at(text, span.lo as int), end: line_col_at(text, span.hi as int) }
}

proof fn lemma_line_col_bounds(text: Seq<u8>, pos: int)
    requires
        0 <= pos <= text.len(),
    ensures
        newlines_before(text, pos) <= pos,
        column_at(text, pos) <= pos,
    decreases pos,
{
    if pos > 0 {
        lemma_line_col_bounds(text, pos - 1);
    }
}

/// The first offset from `j` on, before `hi`, that holds a line feed;
/// `hi` where none does.
pub open spec fn line_end(text: Seq<u8>, j: int, hi: int) -> int
    decreases hi - j,
{
    if j >= hi || text[j] == 10u8 {
        j
    } else {
        line_end(text, j + 1, hi)
    }
}

/// The first line of a span: from its start up to, not including, the
/// first line feed in it.
pub open spec fn first_line(text: Seq<u8>, span: Span) -> Span {
    Span { lo: span.lo, hi: line_end(text, span.lo as int, span.hi as int) as usize }
}

/// A comment waiting to be attached, keyed by the byte offset at which it
/// attaches: the start of the node it leads, or the end of the node it trails.
#[derive(Debug)]
pub struct PendingComment {
    pub pos: usize,
    pub comment: SourceComment,
}

/// The pending comments of `s` keyed at `pos`, in order.
pub open spec fn keyed_at(s: Seq<PendingComment>, pos: usize) -> Seq<PendingComment>
    decreases s.len(),
{
    if s.len() == 0 {
        s
    } else if s.last().pos == pos {
        keyed_at(s.drop_last(), pos).push(s.last())
    } else {
        keyed_at(s.drop_last(), pos)
    }
}

/// The pending comments of `s` keyed elsewhere than at `pos`, in order.
pub open spec fn keyed_elsewhere(s: Seq<PendingComment>, pos: usize) -> Seq<PendingComment>
    decreases s.len(),
{
    if s.len() == 0 {
        s
    } else if s.last().pos != pos {
        keyed_elsewhere(s.drop_last(), pos).push(s.last())
    } else {
        keyed_elsewhere(s.drop_last(), pos)
    }
}

/// The output comment for a source comment.
pub open spec fn comment_node(c: SourceComment, text: Seq<u8>) -> Comment {
    let base = BaseComment {
        value: c.text,
        start: c.span.lo,
        end: c.span.hi,
        loc: loc_of(text, c.span),
    };
    match c.kind {
        CommentKind::Block => Comment::Block(base),
        CommentKind::Line => Comment::Line(base),
    }
}

pub open spec fn comment_nodes(s: Seq<PendingComment>, text: Seq<u8>) -> Seq<Comment> {
    s.map_values(|p: PendingComment| comment_node(p.comment, text))
}

pub broadcast proof fn lemma_comment_nodes_add(a: Seq<PendingComment>, b: Seq<PendingComment>, text: Seq<u8>)
    ensures
        #[trigger] comment_nodes(a + b, text) == comment_nodes(a, text) + comment_nodes(b, text),
{
    assert(comment_nodes(a + b, text) =~= comment_nodes(a, text) + comment_nodes(b, text));
}

pub broadcast proof fn lemma_add_assoc<A>(a: Seq<A>, b: Seq<A>, c: Seq<A>)
    ensures
        #[trigger] ((a + b) + c) == a + (b + c),
{
    assert((a + b) + c =~= a + (b + c));
}

pub broadcast proof fn lemma_add_empty<A>(a: Seq<A>)
    ensures
        #[trigger] (a + Seq::<A>::empty()) == a,
        #[trigger] (Seq::<A>::empty() + a) == a,
{
    assert(a + Seq::<A>::empty() =~= a);
    assert(Seq::<A>::empty() + a =~= a);
}

pub broadcast group group_comment_seqs {
    lemma_comment_nodes_add,
    lemma_add_assoc,
    lemma_add_empty,
}

/// The comments of a node's envelope: leading, then trailing, then inner.
pub open spec fn base_comments(b: BaseNode) -> Seq<Comment> {
    b.leading_comments@ + b.trailing_comments@ + b.inner_comments@
}

/// The text of one source file and the comments registered for it.
pub struct Context {
    pub text: Vec<u8>,
    pub leading: Vec<PendingComment>,
    pub trailing: Vec<PendingComment>,
    /// Every comment registered, leading ones first.
    pub registered: Ghost<Seq<PendingComment>>,
    /// The comments handed to nodes so far, in the order they were taken.
    pub handed_out: Ghost<Seq<PendingComment>>,
}

pub open spec fn comments_within(s: Seq<PendingComment>, len: nat) -> bool {
    forall|i: int| 0 <= i < s.len() ==> (#[trigger] s[i]).comment.span.within(len)
}

impl Context {
    /// The output comments handed to nodes so far, in the order taken.
    pub open spec fn handed(&self) -> Seq<Comment> {
        comment_nodes(self.handed_out@, self.text@)
    }

    /// Every registered comment lies within the text, and each one has
    /// either been handed out once or is still pending once.
    pub open spec fn wf(&self) -> bool {
        &&& self.text@.len() < usize::MAX
        &&& comments_within(self.leading@, self.text@.len())
        &&& comments_within(self.trailing@, self.text@.len())
        &&& (self.handed_out@ + self.leading@ + self.trailing@).to_multiset()
            == self.registered@.to_multiset()
    }

    pub open spec fn len(&self) -> nat {
        self.text@.len()
    }

    /// Registers a source text with its leading and trailing comments;
    /// `None` where a comment's span does not lie within the text.
    pub fn new(text: Vec<u8>, leading: Vec<PendingComment>, trailing: Vec<PendingComment>) -> (r:
        Option<Context>)
        requires
            text@.len() < usize::MAX,
        ensures
            r is Some <==> comments_within(leading@, text@.len()) && comments_within(
                trailing@,
                text@.len(),
            ),
            r matches Some(c) ==> c.wf() && c.text@ == text@ && c.leading@ == leading@
                && c.trailing@ == trailing@ && c.registered@ == leading@ + trailing@
                && c.handed_out@.len() == 0,
    {
        let ok_leading = all_within(&leading, text.len());
        let ok_trailing = all_within(&trailing, text.len());
        if ok_leading && ok_trailing {
            let ghost registered = leading@ + trailing@;
            proof {
                assert(Seq::<PendingComment>::empty() + leading@ + trailing@ =~= registered);
            }
            Some(
                Context {
                    text,
                    leading,
                    trailing,
                    registered: Ghost(registered),
                    handed_out: Ghost(Seq::empty()),
                },
            )
        } else {
            None
        }
    }

    /// Line and column of a byte offset.
    pub fn line_col(&self, pos: usize) -> (r: LineCol)
        requires
            pos <= self.text@.len() < usize::MAX,
        ensures
            r == line_col_at(self.text@, pos as int),
    {
        let mut line: usize = 1;
        let mut column: usize = 0;
        let mut i: usize = 0;
        while i < pos
            invariant
                i <= pos <= self.text@.len() < usize::MAX,
                line == newlines_before(self.text@, i as int) + 1,
                column == column_at(self.text@, i as int),
            decreases pos - i,
        {
            proof {
                lemma_line_col_bounds(self.text@, i as int);
            }
            let b = self.text[i];
            if b == 10u8 {
                line = line + 1;
                column = 0;
            } else if b < 0x80u8 || b >= 0xC0u8 {
                column = column + 1;
            }
            i = i + 1;
        }
        LineCol { line, column }
    }

    /// Byte offsets and line/column pairs of a span.
    pub fn locate(&self, span: Span) -> (r: Loc)
        requires
            span.within(self.text@.len()),
            self.text@.len() < usize::MAX,
        ensures
            r == loc_of(self.text@, span),
    {
        Loc { start: self.line_col(span.lo), end: self.line_col(span.hi) }
    }

    /// The span from the start of `file_span` up to, not including, the
    /// first line feed in it (or the whole span where it holds none).
    pub fn shebang_span(&self, file_span: Span) -> (r: Span)
        requires
            file_span.within(self.text@.len()),
        ensures
            r == first_line(self.text@, file_span),
            r.lo == file_span.lo,
            file_span.lo <= r.hi <= file_span.hi,
            forall|j: int| file_span.lo <= j < r.hi ==> self.text@[j] != 10u8,
            r.hi < file_span.hi ==> self.text@[r.hi as int] == 10u8,
    {
        let mut hi = file_span.lo;
        while hi < file_span.hi && self.text[hi] != 10u8
            invariant
                file_span.within(self.text@.len()),
                file_span.lo <= hi <= file_span.hi,
                forall|j: int| file_span.lo <= j < hi ==> self.text@[j] != 10u8,
                line_end(self.text@, file_span.lo as int, file_span.hi as int) == line_end(
                    self.text@,
                    hi as int,
                    file_span.hi as int,
                ),
            decreases file_span.hi - hi,
        {
            hi = hi + 1;
        }
        Span { lo: file_span.lo, hi }
    }
}

/// Whether `b` is the envelope of a node at `span`: its offsets, its
/// line/column pair, no inner comments and no extra data.
pub open spec fn placed_at(b: BaseNode, span: Span, text: Seq<u8>) -> bool {
    &&& b.start == Some(span.lo)
    &&& b.end == Some(span.hi)
    &&& b.loc == Some(loc_of(text, span))
    &&& b.inner_comments@.len() == 0
    &&& b.extra is None
}

impl SourceComment {
    pub fn duplicate(&self) -> (r: SourceComment)
        ensures
            r == *self,
    {
        SourceComment { kind: self.kind, span: self.span, text: self.text.clone() }
    }
}

impl PendingComment {
    pub fn duplicate(&self) -> (r: PendingComment)
        ensures
            r == *self,
    {
        PendingComment { pos: self.pos, comment: self.comment.duplicate() }
    }
}

impl Context {
    fn comment(&self, c: SourceComment) -> (r: Comment)
        requires
            c.span.within(self.text@.len()),
            self.text@.len() < usize::MAX,
        ensures
            r == comment_node(c, self.text@),
    {
        let loc = self.locate(c.span);
        let base = BaseComment { value: c.text, start: c.span.lo, end: c.span.hi, loc };
        match c.kind {
            CommentKind::Block => Comment::Block(base),
            CommentKind::Line => Comment::Line(base),
        }
    }

    /// Splits `pending` into the comments keyed at `pos`, converted, and
    /// the rest, both in their order.
    fn split_at_pos(&self, pending: &Vec<PendingComment>, pos: usize) -> (r: (
        Vec<Comment>,
        Vec<PendingComment>,
    ))
        requires
            comments_within(pending@, self.text@.len()),
            self.text@.len() < usize::MAX,
        ensures
            r.0@ == comment_nodes(keyed_at(pending@, pos), self.text@),
            r.1@ == keyed_elsewhere(pending@, pos),
            comments_within(r.1@, self.text@.len()),
    {
        let mut taken: Vec<Comment> = Vec::new();
        let mut kept: Vec<PendingComment> = Vec::new();
        let mut i: usize = 0;
        while i < pending.len()
            invariant
                i <= pending@.len(),
                comments_within(pending@, self.text@.len()),
                self.text@.len() < usize::MAX,
                taken@ == comment_nodes(keyed_at(pending@.take(i as int), pos), self.text@),
                kept@ == keyed_elsewhere(pending@.take(i as int), pos),
                comments_within(kept@, self.text@.len()),
            decreases pending@.len() - i,
        {
            let p = pending[i].duplicate();
            proof {
                assert(pending@.take(i as int + 1).drop_last() =~= pending@.take(i as int));
                assert(pending@.take(i as int + 1).last() == pending@[i as int]);
            }
            if p.pos == pos {
                proof {
                    assert(comment_nodes(keyed_at(pending@.take(i as int), pos), self.text@).push(
                        comment_node(p.comment, self.text@),
                    ) =~= comment_nodes(
                        keyed_at(pending@.take(i as int), pos).push(p),
                        self.text@,
                    ));
                }
                let c = self.comment(p.comment);
                taken.push(c);
            } else {
                kept.push(p);
            }
            i = i + 1;
        }
        proof {
            assert(pending@.take(pending@.len() as int) =~= pending@);
        }
        (taken, kept)
    }

    /// The envelope of a node at `span`: its offsets and line/column pair,
    /// with the comments that lead it (keyed at its start) and trail it
    /// (keyed at its end) taken out of the pending ones.
    pub fn base(&mut self, span: Span) -> (r: BaseNode)
        requires
            old(self).wf(),
            span.within(old(self).text@.len()),
        ensures
            final(self).wf(),
            final(self).text@ == old(self).text@,
            final(self).registered@ == old(self).registered@,
            final(self).handed_out@ == old(self).handed_out@ + keyed_at(old(self).leading@, span.lo)
                + keyed_at(old(self).trailing@, span.hi),
            placed_at(r, span, old(self).text@),
            r.leading_comments@ == comment_nodes(keyed_at(old(self).leading@, span.lo), old(self).text@),
            r.trailing_comments@ == comment_nodes(keyed_at(old(self).trailing@, span.hi), old(self).text@),
            final(self).leading@ == keyed_elsewhere(old(self).leading@, span.lo),
            final(self).trailing@ == keyed_elsewhere(old(self).trailing@, span.hi),
            final(self).handed() == old(self).handed() + base_comments(r),
    {
        broadcast use group_comment_seqs;

        let (leading_comments, leading_rest) = self.split_at_pos(&self.leading, span.lo);
        let (trailing_comments, trailing_rest) = self.split_at_pos(&self.trailing, span.hi);
        proof {
            let h = self.handed_out@;
            let l = self.leading@;
            let t = self.trailing@;
            let la = keyed_at(l, span.lo);
            let le = keyed_elsewhere(l, span.lo);
            let ta = keyed_at(t, span.hi);
            let te = keyed_elsewhere(t, span.hi);
            lemma_take_partitions(l, span.lo);
            lemma_take_partitions(t, span.hi);
            lemma_multiset_commutative(h + l, t);
            lemma_multiset_commutative(h, l);
            lemma_multiset_commutative(h + la + ta + le, te);
            lemma_multiset_commutative(h + la + ta, le);
            lemma_multiset_commutative(h + la, ta);
            lemma_multiset_commutative(h, la);
            assert((h + la + ta + le + te).to_multiset() =~= (h + l + t).to_multiset());
        }
        self.handed_out = Ghost(
            self.handed_out@ + keyed_at(self.leading@, span.lo) + keyed_at(self.trailing@, span.hi),
        );
        self.leading = leading_rest;
        self.trailing = trailing_rest;
        let loc = self.locate(span);
        let r = BaseNode {
            leading_comments,
            inner_comments: Vec::new(),
            trailing_comments,
            start: Some(span.lo),
            end: Some(span.hi),
            loc: Some(loc),
            extra: None,
        };
        assert(r.inner_comments@ =~= Seq::<Comment>::empty());
        r
    }
}

impl Context {
    /// Hands out every comment still pending, leading ones first, in order.
    pub fn take_rest(&mut self) -> (r: Vec<Comment>)
        requires
            old(self).wf(),
        ensures
            final(self).wf(),
            final(self).text@ == old(self).text@,
            final(self).registered@ == old(self).registered@,
            final(self).handed_out@ == old(self).handed_out@ + old(self).leading@ + old(self).trailing@,
            final(self).leading@.len() == 0,
            final(self).trailing@.len() == 0,
            r@ == comment_nodes(old(self).leading@ + old(self).trailing@, old(self).text@),
            final(self).handed() == old(self).handed() + r@,
    {
        broadcast use group_comment_seqs;

        let ghost all = self.leading@ + self.trailing@;
        let mut out: Vec<Comment> = Vec::new();
        let mut i: usize = 0;
        while i < self.leading.len()
            invariant
                self.wf(),
                i <= self.leading@.len(),
                all == self.leading@ + self.trailing@,
                out@ == comment_nodes(all.take(i as int), self.text@),
            decreases self.leading@.len() - i,
        {
            let c = self.comment(self.leading[i].comment.duplicate());
            out.push(c);
            proof {
                assert(all.take(i as int + 1) =~= all.take(i as int).push(all[i as int]));
                assert(comment_nodes(all.take(i as int + 1), self.text@) =~= comment_nodes(
                    all.take(i as int),
                    self.text@,
                ).push(comment_node(all[i as int].comment, self.text@)));
            }
            i = i + 1;
        }
        let n = self.leading.len();
        let mut j: usize = 0;
        while j < self.trailing.len()
            invariant
                self.wf(),
                n == self.leading@.len(),
                j <= self.trailing@.len(),
                all == self.leading@ + self.trailing@,
                out@ == comment_nodes(all.take(n + j), self.text@),
            decreases self.trailing@.len() - j,
        {
            let c = self.comment(self.trailing[j].comment.duplicate());
            out.push(c);
            proof {
                assert(all[n + j] == self.trailing@[j as int]);
                assert(all.take(n + j + 1) =~= all.take(n + j).push(all[n + j]));
                assert(comment_nodes(all.take(n + j + 1), self.text@) =~= comment_nodes(
                    all.take(n + j),
                    self.text@,
                ).push(comment_node(all[n + j].comment, self.text@)));
            }
            j = j + 1;
        }
        proof {
            assert(all.take(all.len() as int) =~= all);
            assert(self.handed_out@ + self.leading@ + self.trailing@ =~= self.handed_out@ + all);
            assert(self.handed_out@ + all + Seq::<PendingComment>::empty() + Seq::<PendingComment>::empty()
                =~= self.handed_out@ + all);
        }
        self.handed_out = Ghost(self.handed_out@ + all);
        self.leading = Vec::new();
        self.trailing = Vec::new();
        out
    }
}

/// Once nothing is pending, every registered comment has been handed out
/// exactly once: the comments handed out, counted with multiplicity, are
/// exactly the comments registered.
pub proof fn lemma_every_comment_handed_out_once(c: Context)
    requires
        c.wf(),
        c.leading@.len() == 0,
        c.trailing@.len() == 0,
    ensures
        c.handed_out@.to_multiset() == c.registered@.to_multiset(),
{
    assert(c.handed_out@ + c.leading@ + c.trailing@ =~= c.handed_out@);
}

/// Taking the comments keyed at one offset neither duplicates nor loses
/// any: what is taken and what stays pending make up, together, exactly the
/// comments that were pending, and each part keeps their order.
pub proof fn lemma_take_partitions(s: Seq<PendingComment>, pos: usize)
    ensures
        keyed_at(s, pos).to_multiset().add(keyed_elsewhere(s, pos).to_multiset())
            =~= s.to_multiset(),
        keyed_at(s, pos).len() + keyed_elsewhere(s, pos).len() == s.len(),
    decreases s.len(),
{
    broadcast use vstd::seq_lib::group_to_multiset_ensures;

    if s.len() > 0 {
        lemma_take_partitions(s.drop_last(), pos);
        assert(s.drop_last().push(s.last()) =~= s);
    }
}

fn all_within(s: &Vec<PendingComment>, len: usize) -> (r: bool)
    ensures
        r == comments_within(s@, len as nat),
{
    let mut i: usize = 0;
    while i < s.len()
        invariant
            i <= s@.len(),
            forall|j: int| 0 <= j < i ==> (#[trigger] s@[j]).comment.span.within(len as nat),
        decreases s@.len() - i,
    {
        let sp = s[i].comment.span;
        if !(sp.lo <= sp.hi && sp.hi <= len) {
            return false;
        }
        i = i + 1;
    }
    true
}

} // verus!
