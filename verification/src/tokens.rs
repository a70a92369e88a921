//! Flattening of a procedural-macro token tree into the flat token list that
//! the SixtyFPS parser reads.

use vstd::prelude::*;
use vstd::string::StrSliceExecFns;
use vstd::string::StringExecFns;

verus! {

/// The kinds of syntax tokens that the macro front end produces.
#[derive(Clone, Copy, Debug, PartialEq, Eq, Structural)]
pub enum TokenKind {
    Identifier,
    Colon,
    Equal,
    Semicolon,
    Bang,
    StringLiteral,
    NumberLiteral,
    LParent,
    RParent,
    LBrace,
    RBrace,
    Error,
}

/// The delimiter of a token group.
#[derive(Clone, Copy, Debug, PartialEq, Eq, Structural)]
pub enum Delimiter {
    /// `( ... )`
    Parenthesis,
    /// `{ ... }`
    Brace,
    /// `[ ... ]`
    Bracket,
    /// A group without visible delimiters.
    Invisible,
}

/// A token tree as handed to the macro: the text of each leaf and the span
/// `S` that locates it in the macro input.
pub enum TokenTree<S> {
    Ident { text: String, span: S },
    Punct { ch: char, span: S },
    Literal { text: String, span: S },
    Group { delimiter: Delimiter, span: S, stream: Vec<TokenTree<S>> },
}

/// A flat syntax token.
pub struct Token<S> {
    pub kind: TokenKind,
    pub text: String,
    pub span: Option<S>,
}

/// The mathematical value of a [`Token`].
pub struct TokenView<S> {
    pub kind: TokenKind,
    pub text: Seq<char>,
    pub span: Option<S>,
}

impl<S> View for Token<S> {
    type V = TokenView<S>;

    open spec fn view(&self) -> TokenView<S> {
        TokenView { kind: self.kind, text: self.text@, span: self.span }
    }
}

/// The views of a sequence of tokens.
pub open spec fn views<S>(v: Seq<Token<S>>) -> Seq<TokenView<S>> {
    v.map_values(|t: Token<S>| t@)
}

/// The kind of a punctuation character.
pub open spec fn spec_punct_kind(c: char) -> TokenKind {
    if c == ':' {
        TokenKind::Colon
    } else if c == '=' {
        TokenKind::Equal
    } else if c == ';' {
        TokenKind::Semicolon
    } else if c == '!' {
        TokenKind::Bang
    } else {
        TokenKind::Error
    }
}

/// Whether `c` is an ASCII decimal digit.
pub open spec fn is_decimal_digit(c: char) -> bool {
    '0' <= c && c <= '9'
}

/// The kind of a literal, decided by the first character of its text.
pub open spec fn spec_literal_kind(text: Seq<char>) -> TokenKind {
    if text[0] == '"' {
        TokenKind::StringLiteral
    } else if is_decimal_digit(text[0]) {
        TokenKind::NumberLiteral
    } else {
        TokenKind::Error
    }
}

/// Whether the parser has tokens for a group with this delimiter.
pub open spec fn delimiter_supported(d: Delimiter) -> bool {
    d is Parenthesis || d is Brace
}

/// The opening token kind of a supported delimiter.
pub open spec fn open_kind(d: Delimiter) -> TokenKind {
    if d is Parenthesis {
        TokenKind::LParent
    } else {
        TokenKind::LBrace
    }
}

/// The closing token kind of a supported delimiter.
pub open spec fn close_kind(d: Delimiter) -> TokenKind {
    if d is Parenthesis {
        TokenKind::RParent
    } else {
        TokenKind::RBrace
    }
}

/// The opening text of a supported delimiter.
pub open spec fn open_text(d: Delimiter) -> Seq<char> {
    if d is Parenthesis {
        seq!['(']
    } else {
        seq!['{']
    }
}

/// The closing text of a supported delimiter.
pub open spec fn close_text(d: Delimiter) -> Seq<char> {
    if d is Parenthesis {
        seq![')']
    } else {
        seq!['}']
    }
}


/// Whether every leaf and group of the tree can be turned into tokens:
/// literals are not empty and groups are delimited by parentheses or braces.
pub open spec fn tree_supported<S>(t: TokenTree<S>) -> bool
    decreases t, 0nat,
{
    match t {
        TokenTree::Literal { text, .. } => text@.len() > 0,
        TokenTree::Group { delimiter, stream, .. } => {
            &&& delimiter_supported(delimiter)
            &&& prefix_supported(stream@, stream@.len() as int)
        },
        _ => true,
    }
}

/// Whether the first `n` trees of the stream are supported.
pub open spec fn prefix_supported<S>(s: Seq<TokenTree<S>>, n: int) -> bool
    decreases s, n,
{
    if n <= 0 || n > s.len() {
        true
    } else {
        prefix_supported(s, n - 1) && tree_supported(s[n - 1])
    }
}

/// Whether every tree of the stream is supported.
pub open spec fn stream_supported<S>(s: Seq<TokenTree<S>>) -> bool {
    prefix_supported(s, s.len() as int)
}

/// A supported prefix holds only supported trees.
proof fn lemma_prefix_supported_at<S>(s: Seq<TokenTree<S>>, n: int, i: int)
    requires
        prefix_supported(s, n),
        0 <= i < n <= s.len(),
    ensures
        tree_supported(s[i]),
    decreases n,
{
    if i < n - 1 {
        lemma_prefix_supported_at(s, n - 1, i);
    }
}

/// The flat tokens of one tree: a leaf gives one token, a group gives its
/// opening token, the tokens of its contents and its closing token.
pub open spec fn tree_tokens<S>(t: TokenTree<S>) -> Seq<TokenView<S>>
    decreases t, 0nat,
{
    match t {
        TokenTree::Ident { text, span } => seq![
            TokenView { kind: TokenKind::Identifier, text: text@, span: Some(span) },
        ],
        TokenTree::Punct { ch, span } => seq![
            TokenView { kind: spec_punct_kind(ch), text: seq![ch], span: Some(span) },
        ],
        TokenTree::Literal { text, span } => seq![
            TokenView { kind: spec_literal_kind(text@), text: text@, span: Some(span) },
        ],
        TokenTree::Group { delimiter, span, stream } => {
            seq![TokenView { kind: open_kind(delimiter), text: open_text(delimiter), span: Some(span) }]
                + stream_tokens(stream@, stream@.len() as int)
                + seq![TokenView { kind: close_kind(delimiter), text: close_text(delimiter), span: Some(span) }]
        },
    }
}

/// The flat tokens of the first `n` trees of a stream, in order.
pub open spec fn stream_tokens<S>(s: Seq<TokenTree<S>>, n: int) -> Seq<TokenView<S>>
    decreases s, n,
{
    if n <= 0 || n > s.len() {
        seq![]
    } else {
        stream_tokens(s, n - 1) + tree_tokens(s[n - 1])
    }
}

/// The flat tokens of a whole stream.
pub open spec fn flatten<S>(s: Seq<TokenTree<S>>) -> Seq<TokenView<S>> {
    stream_tokens(s, s.len() as int)
}


/// The token kind of a punctuation character: `:`, `=`, `;` and `!` have
/// kinds of their own, every other character is an error token.
pub fn punct_kind(c: char) -> (kind: TokenKind)
    ensures
        kind == spec_punct_kind(c),
{
    match c {
        ':' => TokenKind::Colon,
        '=' => TokenKind::Equal,
        ';' => TokenKind::Semicolon,
        '!' => TokenKind::Bang,
        _ => TokenKind::Error,
    }
}

/// The token kind of a literal: a string literal when its text starts with a
/// double quote, a number literal when it starts with a decimal digit, an
/// error token otherwise.
pub fn literal_kind(text: &str) -> (kind: TokenKind)
    requires
        text@.len() > 0,
    ensures
        kind == spec_literal_kind(text@),
{
    let f = text.get_char(0);
    if f == '"' {
        TokenKind::StringLiteral
    } else if '0' <= f && f <= '9' {
        TokenKind::NumberLiteral
    } else {
        TokenKind::Error
    }
}

/// The opening and closing token kinds and texts of a group delimiter.
/// Only parentheses and braces have tokens.
pub fn group_delimiters(d: Delimiter) -> (r: (TokenKind, TokenKind, &'static str, &'static str))
    requires
        delimiter_supported(d),
    ensures
        r.0 == open_kind(d),
        r.1 == close_kind(d),
        r.2@ == open_text(d),
        r.3@ == close_text(d),
{
    proof {
        reveal_strlit("(");
        reveal_strlit(")");
        reveal_strlit("{");
        reveal_strlit("}");
    }
    match d {
        Delimiter::Parenthesis => (TokenKind::LParent, TokenKind::RParent, "(", ")"),
        _ => (TokenKind::LBrace, TokenKind::RBrace, "{", "}"),
    }
}

/// The text of a single character, through std's `ToString` for `char`,
/// whose `Display` writes exactly that character.
#[verifier::external_body]
fn char_text(c: char) -> (s: String)
    ensures
        s@ == seq![c],
{
    c.to_string()
}


/// Appends a token to `vec`, keeping the views in step.
fn push_token<S>(vec: &mut Vec<Token<S>>, kind: TokenKind, text: String, span: S)
    ensures
        views(final(vec)@) == views(old(vec)@).push(
            TokenView { kind: kind, text: text@, span: Some(span) },
        ),
{
    vec.push(Token { kind: kind, text: text, span: Some(span) });
    assert(views(vec@) =~= views(old(vec)@).push(
        TokenView { kind: kind, text: text@, span: Some(span) },
    ));
}

/// Appends to `vec` the flat tokens of `stream`: identifiers, punctuation and
/// literals one token each, a group as its opening token, the tokens of its
/// contents and its closing token, every token with the span of its tree.
pub fn fill_token_vec<S: Copy>(stream: &Vec<TokenTree<S>>, vec: &mut Vec<Token<S>>)
    requires
        stream_supported(stream@),
    ensures
        views(final(vec)@) == views(old(vec)@) + flatten(stream@),
    decreases stream@,
{
    let n = stream.len();
    let mut i: usize = 0;
    assert(views(vec@) =~= views(old(vec)@) + stream_tokens(stream@, 0));
    while i < n
        invariant
            n == stream@.len(),
            i <= n,
            stream_supported(stream@),
            views(vec@) == views(old(vec)@) + stream_tokens(stream@, i as int),
        decreases n - i,
    {
        let ghost before = views(vec@);
        proof {
            lemma_prefix_supported_at(stream@, stream@.len() as int, i as int);
        }
        match &stream[i] {
            TokenTree::Ident { text, span } => {
                push_token(vec, TokenKind::Identifier, text.clone(), *span);
                assert(views(vec@) =~= before + tree_tokens(stream@[i as int]));
            },
            TokenTree::Punct { ch, span } => {
                push_token(vec, punct_kind(*ch), char_text(*ch), *span);
                assert(views(vec@) =~= before + tree_tokens(stream@[i as int]));
            },
            TokenTree::Literal { text, span } => {
                let kind = literal_kind(text.as_str());
                push_token(vec, kind, text.clone(), *span);
                assert(views(vec@) =~= before + tree_tokens(stream@[i as int]));
            },
            TokenTree::Group { delimiter, span, stream: inner } => {
                let (l, r, sl, sr) = group_delimiters(*delimiter);
                push_token(vec, l, String::from_str(sl), *span);
                let ghost mid = views(vec@);
                assert(decreases_to!(stream@ => inner@));
                fill_token_vec(inner, vec);
                push_token(vec, r, String::from_str(sr), *span);
                assert(views(vec@) =~= before + tree_tokens(stream@[i as int]));
            },
        }
        i = i + 1;
        assert(views(vec@) =~= views(old(vec)@) + stream_tokens(stream@, i as int));
    }
}



/// Whether `fill_token_vec` accepts the stream: no empty literal and no
/// group delimited otherwise than by parentheses or braces, at any depth.
pub fn stream_is_supported<S>(stream: &Vec<TokenTree<S>>) -> (b: bool)
    ensures
        b == stream_supported(stream@),
    decreases stream@,
{
    let n = stream.len();
    let mut i: usize = 0;
    while i < n
        invariant
            n == stream@.len(),
            i <= n,
            prefix_supported(stream@, i as int),
        decreases n - i,
    {
        let ok = match &stream[i] {
            TokenTree::Literal { text, .. } => text.as_str().unicode_len() > 0,
            TokenTree::Group { delimiter, stream: inner, .. } => {
                assert(decreases_to!(stream@ => inner@));
                (match delimiter {
                    Delimiter::Parenthesis => true,
                    Delimiter::Brace => true,
                    _ => false,
                }) && stream_is_supported(inner)
            },
            _ => true,
        };
        assert(ok == tree_supported(stream@[i as int]));
        if !ok {
            proof {
                lemma_prefix_unsupported(stream@, n as int, i as int);
            }
            return false;
        }
        i = i + 1;
    }
    true
}

/// A prefix that holds an unsupported tree is unsupported.
proof fn lemma_prefix_unsupported<S>(s: Seq<TokenTree<S>>, n: int, i: int)
    requires
        0 <= i < n <= s.len(),
        !tree_supported(s[i]),
    ensures
        !prefix_supported(s, n),
    decreases n,
{
    if i < n - 1 {
        lemma_prefix_unsupported(s, n - 1, i);
    }
}

} // verus!
