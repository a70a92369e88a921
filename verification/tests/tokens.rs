use sixtyfps::tokens::{
    fill_token_vec, group_delimiters, literal_kind, punct_kind, stream_is_supported, Delimiter, Token, TokenKind, TokenTree,
};

fn ident(text: &str, span: u32) -> TokenTree<u32> {
    TokenTree::Ident { text: text.to_string(), span }
}

fn punct(ch: char, span: u32) -> TokenTree<u32> {
    TokenTree::Punct { ch, span }
}

fn literal(text: &str, span: u32) -> TokenTree<u32> {
    TokenTree::Literal { text: text.to_string(), span }
}

fn kinds(v: &[Token<u32>]) -> Vec<TokenKind> {
    v.iter().map(|t| t.kind).collect()
}

fn texts(v: &[Token<u32>]) -> Vec<String> {
    v.iter().map(|t| t.text.clone()).collect()
}

#[test]
fn punct_kinds() {
    assert_eq!(punct_kind(':'), TokenKind::Colon);
    assert_eq!(punct_kind('='), TokenKind::Equal);
    assert_eq!(punct_kind(';'), TokenKind::Semicolon);
    assert_eq!(punct_kind('!'), TokenKind::Bang);
    assert_eq!(punct_kind('+'), TokenKind::Error);
    assert_eq!(punct_kind('#'), TokenKind::Error);
}

#[test]
fn literal_kinds() {
    assert_eq!(literal_kind("\"hello\""), TokenKind::StringLiteral);
    assert_eq!(literal_kind("42"), TokenKind::NumberLiteral);
    assert_eq!(literal_kind("0.5"), TokenKind::NumberLiteral);
    assert_eq!(literal_kind("'c'"), TokenKind::Error);
    assert_eq!(literal_kind("b\"bytes\""), TokenKind::Error);
    // only ASCII digits count as the start of a number
    assert_eq!(literal_kind("\u{0663}"), TokenKind::Error);
}

#[test]
fn delimiters() {
    assert_eq!(
        group_delimiters(Delimiter::Parenthesis),
        (TokenKind::LParent, TokenKind::RParent, "(", ")")
    );
    assert_eq!(group_delimiters(Delimiter::Brace), (TokenKind::LBrace, TokenKind::RBrace, "{", "}"));
}

#[test]
fn flattens_leaves() {
    let stream = vec![ident("Hello", 1), punct(':', 2), punct('=', 3), literal("\"x\"", 4), literal("12", 5), punct(';', 6)];
    let mut v = Vec::new();
    fill_token_vec(&stream, &mut v);
    assert_eq!(
        kinds(&v),
        vec![
            TokenKind::Identifier,
            TokenKind::Colon,
            TokenKind::Equal,
            TokenKind::StringLiteral,
            TokenKind::NumberLiteral,
            TokenKind::Semicolon
        ]
    );
    assert_eq!(texts(&v), vec!["Hello", ":", "=", "\"x\"", "12", ";"]);
    let spans: Vec<Option<u32>> = v.iter().map(|t| t.span).collect();
    assert_eq!(spans, vec![Some(1), Some(2), Some(3), Some(4), Some(5), Some(6)]);
}

#[test]
fn flattens_nested_groups() {
    // Hello := Window { Rect { x: 5; } }  written with a parenthesised group too
    let inner = TokenTree::Group {
        delimiter: Delimiter::Brace,
        span: 20,
        stream: vec![ident("x", 21), punct(':', 22), literal("5", 23), punct(';', 24)],
    };
    let paren = TokenTree::Group { delimiter: Delimiter::Parenthesis, span: 30, stream: vec![] };
    let outer = TokenTree::Group {
        delimiter: Delimiter::Brace,
        span: 10,
        stream: vec![ident("Rect", 11), inner, paren],
    };
    let stream = vec![ident("Hello", 1), punct(':', 2), punct('=', 3), ident("Window", 4), outer];
    let mut v = Vec::new();
    fill_token_vec(&stream, &mut v);
    assert_eq!(
        texts(&v),
        vec!["Hello", ":", "=", "Window", "{", "Rect", "{", "x", ":", "5", ";", "}", "(", ")", "}"]
    );
    assert_eq!(
        kinds(&v),
        vec![
            TokenKind::Identifier,
            TokenKind::Colon,
            TokenKind::Equal,
            TokenKind::Identifier,
            TokenKind::LBrace,
            TokenKind::Identifier,
            TokenKind::LBrace,
            TokenKind::Identifier,
            TokenKind::Colon,
            TokenKind::NumberLiteral,
            TokenKind::Semicolon,
            TokenKind::RBrace,
            TokenKind::LParent,
            TokenKind::RParent,
            TokenKind::RBrace
        ]
    );
    // a group's opening and closing tokens both carry the group's span
    assert_eq!(v[4].span, Some(10));
    assert_eq!(v[14].span, Some(10));
    assert_eq!(v[6].span, Some(20));
    assert_eq!(v[11].span, Some(20));
    assert_eq!(v[12].span, Some(30));
}

#[test]
fn appends_after_existing_tokens() {
    let mut v = vec![Token { kind: TokenKind::Error, text: "pre".to_string(), span: None }];
    fill_token_vec(&vec![ident("a", 1)], &mut v);
    assert_eq!(texts(&v), vec!["pre", "a"]);
    assert_eq!(v[0].span, None);
}

#[test]
fn empty_stream_adds_nothing() {
    let mut v: Vec<Token<u32>> = Vec::new();
    fill_token_vec(&Vec::new(), &mut v);
    assert!(v.is_empty());
}

#[test]
fn law_nested_on_example() {
    let stream = vec![TokenTree::Group {
        delimiter: Delimiter::Parenthesis,
        span: 0u32,
        stream: vec![
            TokenTree::Group { delimiter: Delimiter::Brace, span: 1, stream: vec![punct('!', 2)] },
            TokenTree::Group { delimiter: Delimiter::Parenthesis, span: 3, stream: vec![] },
        ],
    }];
    let mut v = Vec::new();
    fill_token_vec(&stream, &mut v);
    let count = |k: TokenKind| v.iter().filter(|t| t.kind == k).count();
    assert_eq!(count(TokenKind::LParent), 2);
    assert_eq!(count(TokenKind::RParent), 2);
    assert_eq!(count(TokenKind::LBrace), 1);
    assert_eq!(count(TokenKind::RBrace), 1);
    // every closing token closes an earlier opening one
    assert_eq!(
        kinds(&v),
        vec![
            TokenKind::LParent,
            TokenKind::LBrace,
            TokenKind::Bang,
            TokenKind::RBrace,
            TokenKind::LParent,
            TokenKind::RParent,
            TokenKind::RParent
        ]
    );
}

#[test]
fn law_concat_on_example() {
    let a = vec![ident("a", 1), punct('=', 2)];
    let b = vec![literal("3", 3), punct(';', 4)];
    let mut one = Vec::new();
    fill_token_vec(&a, &mut one);
    fill_token_vec(&b, &mut one);
    let both = vec![ident("a", 1), punct('=', 2), literal("3", 3), punct(';', 4)];
    let mut two = Vec::new();
    fill_token_vec(&both, &mut two);
    assert_eq!(texts(&one), texts(&two));
    assert_eq!(kinds(&one), kinds(&two));
}

#[test]
fn supported_streams() {
    assert!(stream_is_supported::<u32>(&vec![]));
    assert!(stream_is_supported(&vec![ident("a", 0), literal("1", 1)]));
    assert!(!stream_is_supported(&vec![ident("a", 0), literal("", 1)]));
    let bracket = TokenTree::Group { delimiter: Delimiter::Bracket, span: 0u32, stream: vec![] };
    assert!(!stream_is_supported(&vec![bracket]));
    let hidden = TokenTree::Group { delimiter: Delimiter::Invisible, span: 0u32, stream: vec![] };
    let nested = TokenTree::Group { delimiter: Delimiter::Brace, span: 1u32, stream: vec![hidden] };
    assert!(!stream_is_supported(&vec![ident("a", 0), nested]));
    let fine = TokenTree::Group {
        delimiter: Delimiter::Brace,
        span: 1u32,
        stream: vec![TokenTree::Group { delimiter: Delimiter::Parenthesis, span: 2, stream: vec![] }],
    };
    assert!(stream_is_supported(&vec![fine]));
}
