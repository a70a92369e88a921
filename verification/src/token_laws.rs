//! Laws of token flattening.

use vstd::prelude::*;
use crate::tokens::{
    TokenKind, TokenTree, TokenView, tree_tokens, stream_tokens, flatten, tree_supported,
    prefix_supported, stream_supported, open_kind, close_kind, Delimiter, spec_literal_kind,
    spec_punct_kind,
};

verus! {

/// How many tokens of kind `k` a token sequence holds.
pub open spec fn count_kind<S>(ts: Seq<TokenView<S>>, k: TokenKind) -> nat
    decreases ts.len(),
{
    if ts.len() == 0 {
        0
    } else {
        count_kind(ts.drop_last(), k) + (if ts.last().kind == k { 1nat } else { 0nat })
    }
}

/// Counting distributes over concatenation.
proof fn lemma_count_concat<S>(a: Seq<TokenView<S>>, b: Seq<TokenView<S>>, k: TokenKind)
    ensures
        count_kind(a + b, k) == count_kind(a, k) + count_kind(b, k),
    decreases b.len(),
{
    if b.len() == 0 {
        assert(a + b =~= a);
    } else {
        lemma_count_concat(a, b.drop_last(), k);
        assert((a + b).drop_last() =~= a + b.drop_last());
    }
}

proof fn lemma_single_count<S>(t: TokenView<S>, k: TokenKind)
    ensures
        count_kind(seq![t], k) == (if t.kind == k { 1nat } else { 0nat }),
{
    assert(seq![t].drop_last() =~= Seq::<TokenView<S>>::empty());
    assert(count_kind(Seq::<TokenView<S>>::empty(), k) == 0);
    assert(seq![t].last() == t);
}

proof fn lemma_stream_tokens_prefix<S>(a: Seq<TokenTree<S>>, b: Seq<TokenTree<S>>, n: int)
    requires
        0 <= n <= a.len(),
    ensures
        stream_tokens(a + b, n) == stream_tokens(a, n),
    decreases n,
{
    if n > 0 {
        lemma_stream_tokens_prefix(a, b, n - 1);
        assert((a + b)[n - 1] == a[n - 1]);
    }
}

proof fn lemma_stream_tokens_suffix<S>(a: Seq<TokenTree<S>>, b: Seq<TokenTree<S>>, m: int)
    requires
        0 <= m <= b.len(),
    ensures
        stream_tokens(a + b, a.len() + m) == flatten(a) + stream_tokens(b, m),
    decreases m,
{
    if m == 0 {
        lemma_stream_tokens_prefix(a, b, a.len() as int);
        assert(flatten(a) + Seq::<TokenView<S>>::empty() =~= flatten(a));
    } else {
        lemma_stream_tokens_suffix(a, b, m - 1);
        assert((a + b)[a.len() + m - 1] == b[m - 1]);
        assert(flatten(a) + stream_tokens(b, m - 1) + tree_tokens(b[m - 1]) =~= flatten(a)
            + (stream_tokens(b, m - 1) + tree_tokens(b[m - 1])));
    }
}

/// Flattening two streams one after the other gives the flattening of their
/// concatenation: the tokens keep the order of the trees.
pub proof fn law_flatten_concat<S>(a: Seq<TokenTree<S>>, b: Seq<TokenTree<S>>)
    ensures
        flatten(a + b) == flatten(a) + flatten(b),
{
    lemma_stream_tokens_suffix(a, b, b.len() as int);
    assert((a + b).len() == a.len() + b.len());
}


/// Opening minus closing tokens of one delimiter kind.
pub open spec fn depth<S>(ts: Seq<TokenView<S>>, open: TokenKind, close: TokenKind) -> int {
    count_kind(ts, open) - count_kind(ts, close)
}

/// Whether the `open`/`close` tokens pair up: every prefix holds at least as
/// many opening as closing tokens, and the whole sequence as many of each.
pub open spec fn well_nested<S>(ts: Seq<TokenView<S>>, open: TokenKind, close: TokenKind) -> bool {
    &&& depth(ts, open, close) == 0
    &&& forall|i: int| 0 <= i <= ts.len() ==> depth(#[trigger] ts.take(i), open, close) >= 0
}

/// Whether parentheses and braces both pair up.
pub open spec fn properly_nested<S>(ts: Seq<TokenView<S>>) -> bool {
    &&& well_nested(ts, TokenKind::LParent, TokenKind::RParent)
    &&& well_nested(ts, TokenKind::LBrace, TokenKind::RBrace)
}

proof fn lemma_depth_concat<S>(a: Seq<TokenView<S>>, b: Seq<TokenView<S>>, o: TokenKind, c: TokenKind)
    ensures
        depth(a + b, o, c) == depth(a, o, c) + depth(b, o, c),
{
    lemma_count_concat(a, b, o);
    lemma_count_concat(a, b, c);
}

proof fn lemma_nested_concat<S>(a: Seq<TokenView<S>>, b: Seq<TokenView<S>>, o: TokenKind, c: TokenKind)
    requires
        well_nested(a, o, c),
        well_nested(b, o, c),
    ensures
        well_nested(a + b, o, c),
{
    lemma_depth_concat(a, b, o, c);
    assert forall|i: int| 0 <= i <= (a + b).len() implies depth(#[trigger] (a + b).take(i), o, c) >= 0 by {
        if i <= a.len() {
            assert((a + b).take(i) =~= a.take(i));
        } else {
            assert((a + b).take(i) =~= a + b.take(i - a.len()));
            assert(a.take(a.len() as int) =~= a);
            lemma_depth_concat(a, b.take(i - a.len()), o, c);
        }
    }
}

proof fn lemma_depth_single<S>(t: TokenView<S>, o: TokenKind, c: TokenKind)
    ensures
        depth(seq![t], o, c) == (if t.kind == o { 1int } else { 0int }) - (if t.kind == c { 1int } else { 0int }),
{
    lemma_single_count(t, o);
    lemma_single_count(t, c);
}

proof fn lemma_depth_empty<S>(o: TokenKind, c: TokenKind)
    ensures
        depth(Seq::<TokenView<S>>::empty(), o, c) == 0,
{
}

/// A sequence whose tokens are neither `o` nor `c` nests trivially.
proof fn lemma_nested_neutral<S>(t: TokenView<S>, o: TokenKind, c: TokenKind)
    requires
        t.kind != o,
        t.kind != c,
    ensures
        well_nested(seq![t], o, c),
{
    lemma_depth_single(t, o, c);
    assert forall|i: int| 0 <= i <= 1 implies depth(#[trigger] seq![t].take(i), o, c) >= 0 by {
        if i == 0 {
            assert(seq![t].take(i) =~= Seq::<TokenView<S>>::empty());
            lemma_depth_empty::<S>(o, c);
        } else {
            assert(seq![t].take(i) =~= seq![t]);
        }
    }
}

/// Wrapping a nested sequence in tokens `l` and `r` keeps it nested, both
/// for the pair that `l` and `r` open and close and for a pair they do not
/// touch.
proof fn lemma_nested_wrap<S>(l: TokenView<S>, x: Seq<TokenView<S>>, r: TokenView<S>, o: TokenKind, c: TokenKind)
    requires
        well_nested(x, o, c),
        (l.kind == o && r.kind == c) || (l.kind != o && l.kind != c && r.kind != o && r.kind != c),
        o != c,
    ensures
        well_nested(seq![l] + x + seq![r], o, c),
{
    let w = seq![l] + x + seq![r];
    lemma_depth_single(l, o, c);
    lemma_depth_single(r, o, c);
    lemma_depth_concat(seq![l], x, o, c);
    lemma_depth_concat(seq![l] + x, seq![r], o, c);
    assert forall|i: int| 0 <= i <= w.len() implies depth(#[trigger] w.take(i), o, c) >= 0 by {
        if i == 0 {
            assert(w.take(i) =~= Seq::<TokenView<S>>::empty());
            lemma_depth_empty::<S>(o, c);
        } else if i <= x.len() + 1 {
            assert(w.take(i) =~= seq![l] + x.take(i - 1));
            lemma_depth_concat(seq![l], x.take(i - 1), o, c);
        } else {
            assert(w.take(i) =~= w);
        }
    }
}

proof fn lemma_empty_nested<S>(o: TokenKind, c: TokenKind)
    ensures
        well_nested(Seq::<TokenView<S>>::empty(), o, c),
{
    assert forall|i: int| 0 <= i <= 0 implies depth(#[trigger] Seq::<TokenView<S>>::empty().take(i), o, c) >= 0 by {
        assert(Seq::<TokenView<S>>::empty().take(i) =~= Seq::<TokenView<S>>::empty());
    }
}

proof fn lemma_tree_nested<S>(t: TokenTree<S>)
    requires
        tree_supported(t),
    ensures
        properly_nested(tree_tokens(t)),
    decreases t, 0nat,
{
    match t {
        TokenTree::Group { delimiter, span, stream } => {
            lemma_stream_nested(stream@, stream@.len() as int);
            let inner = stream_tokens(stream@, stream@.len() as int);
            let l = TokenView { kind: open_kind(delimiter), text: crate::tokens::open_text(delimiter), span: Some(span) };
            let r = TokenView { kind: close_kind(delimiter), text: crate::tokens::close_text(delimiter), span: Some(span) };
            lemma_nested_wrap(l, inner, r, TokenKind::LParent, TokenKind::RParent);
            lemma_nested_wrap(l, inner, r, TokenKind::LBrace, TokenKind::RBrace);
            assert(tree_tokens(t) == seq![l] + inner + seq![r]);
        },
        _ => {
            let ts = tree_tokens(t);
            assert(ts == seq![ts[0]]);
            lemma_nested_neutral(ts[0], TokenKind::LParent, TokenKind::RParent);
            lemma_nested_neutral(ts[0], TokenKind::LBrace, TokenKind::RBrace);
        },
    }
}

proof fn lemma_stream_nested<S>(s: Seq<TokenTree<S>>, n: int)
    requires
        prefix_supported(s, n),
    ensures
        properly_nested(stream_tokens(s, n)),
    decreases s, n,
{
    if n <= 0 || n > s.len() {
        lemma_empty_nested::<S>(TokenKind::LParent, TokenKind::RParent);
        lemma_empty_nested::<S>(TokenKind::LBrace, TokenKind::RBrace);
    } else {
        lemma_stream_nested(s, n - 1);
        lemma_tree_nested(s[n - 1]);
        let a = stream_tokens(s, n - 1);
        let b = tree_tokens(s[n - 1]);
        lemma_nested_concat(a, b, TokenKind::LParent, TokenKind::RParent);
        lemma_nested_concat(a, b, TokenKind::LBrace, TokenKind::RBrace);
    }
}

/// The flat tokens of any stream the macro accepts are properly nested:
/// every closing parenthesis or brace closes an earlier opening one of the
/// same kind, and none stays open at the end.
pub proof fn law_flatten_nested<S>(s: Seq<TokenTree<S>>)
    requires
        stream_supported(s),
    ensures
        properly_nested(flatten(s)),
{
    lemma_stream_nested(s, s.len() as int);
}


/// Every group with parentheses or braces, empty or not, gives its opening
/// token first and its closing token last, both with the group's span and
/// the delimiter's own character, and between them exactly the tokens of
/// its contents.
pub proof fn law_group_delimited<S>(delimiter: Delimiter, span: S, stream: Vec<TokenTree<S>>)
    requires
        (delimiter is Parenthesis) || (delimiter is Brace),
    ensures
        ({
            let ts = tree_tokens(TokenTree::Group { delimiter, span, stream });
            let paren = delimiter is Parenthesis;
            &&& ts.len() == flatten(stream@).len() + 2
            &&& ts[0] == TokenView {
                kind: if paren { TokenKind::LParent } else { TokenKind::LBrace },
                text: if paren { seq!['('] } else { seq!['{'] },
                span: Some(span),
            }
            &&& ts[ts.len() - 1] == TokenView {
                kind: if paren { TokenKind::RParent } else { TokenKind::RBrace },
                text: if paren { seq![')'] } else { seq!['}'] },
                span: Some(span),
            }
            &&& ts.subrange(1, ts.len() - 1) == flatten(stream@)
        }),
{
    let t = TokenTree::Group { delimiter, span, stream };
    let ts = tree_tokens(t);
    let inner = flatten(stream@);
    assert(ts.subrange(1, ts.len() - 1) =~= inner);
}

/// A literal is a number literal exactly when its text starts with an ASCII
/// digit, a string literal exactly when it starts with a double quote, and
/// an error token otherwise.
pub proof fn law_literal_kind(text: Seq<char>)
    requires
        text.len() > 0,
    ensures
        (spec_literal_kind(text) == TokenKind::NumberLiteral) <==> ('0' <= text[0] && text[0] <= '9'),
        (spec_literal_kind(text) == TokenKind::StringLiteral) <==> (text[0] == '"'),
        (spec_literal_kind(text) == TokenKind::Error) <==> !(text[0] == '"' || ('0' <= text[0] && text[0] <= '9')),
{
}

/// The punctuation characters `:`, `=`, `;` and `!` have their own kinds,
/// every other character is an error token.
pub proof fn law_punct_kind(c: char)
    ensures
        (spec_punct_kind(c) == TokenKind::Colon) <==> c == ':',
        (spec_punct_kind(c) == TokenKind::Equal) <==> c == '=',
        (spec_punct_kind(c) == TokenKind::Semicolon) <==> c == ';',
        (spec_punct_kind(c) == TokenKind::Bang) <==> c == '!',
        (spec_punct_kind(c) == TokenKind::Error) <==> !(c == ':' || c == '=' || c == ';' || c == '!'),
{
}

/// Leaves give exactly one token with their own text and span: an
/// identifier token for an identifier, the character itself for a
/// punctuation character, and the literal's text for a literal.
pub proof fn law_leaf_tokens<S>(t: TokenTree<S>)
    requires
        !(t is Group),
    ensures
        tree_tokens(t).len() == 1,
        (t matches TokenTree::Ident { text, span } ==> (tree_tokens(t)[0] == (TokenView {
            kind: TokenKind::Identifier,
            text: text@,
            span: Some(span),
        }))),
        (t matches TokenTree::Punct { ch, span } ==> (tree_tokens(t)[0].text == seq![ch]
            && tree_tokens(t)[0].span == Some(span))),
        (t matches TokenTree::Literal { text, span } ==> (tree_tokens(t)[0].text == text@
            && tree_tokens(t)[0].span == Some(span))),
{
}

} // verus!
