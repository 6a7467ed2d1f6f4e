use ghastly::parser::expression::{tokenize, Token, TokenKind};

#[test]
fn test_tokenize() {
    assert_eq!(
        tokenize("hello world!"),
        vec![Token::string("hello world!")]
    );
    assert_eq!(
        tokenize("${{ foo.bar }}"),
        vec![
            Token::string(""),
            Token::expression(" foo.bar "),
            Token::string("")
        ]
    );
    assert_eq!(
        tokenize("hello ${{ foo.bar }} world!"),
        vec![
            Token::string("hello "),
            Token::expression(" foo.bar "),
            Token::string(" world!")
        ]
    );
    assert_eq!(
        tokenize("${{ foo.bar }} and '${{ toJSON(bar.baz) }}'!"),
        vec![
            Token::string(""),
            Token::expression(" foo.bar "),
            Token::string(" and '"),
            Token::expression(" toJSON(bar.baz) "),
            Token::string("'!")
        ]
    );
}

#[test]
fn tokenize_without_markers_is_one_literal() {
    let tokens = tokenize("echo hello, nothing special");
    assert_eq!(tokens, vec![Token::string("echo hello, nothing special")]);
}

#[test]
fn tokenize_empty_string() {
    assert_eq!(tokenize(""), vec![Token::string("")]);
}

#[test]
fn tokenize_single_expression_between_plain_text() {
    assert_eq!(
        tokenize("a${{b}}"),
        vec![
            Token::string("a"),
            Token::expression("b"),
            Token::string("")
        ]
    );
}

#[test]
fn tokenize_adjacent_markers_yield_empty_tokens() {
    assert_eq!(
        tokenize("${{}}${{}}"),
        vec![
            Token::string(""),
            Token::expression(""),
            Token::string(""),
            Token::expression(""),
            Token::string("")
        ]
    );
}

#[test]
fn tokenize_unterminated_expression_is_lenient() {
    assert_eq!(
        tokenize("${{foo"),
        vec![Token::string(""), Token::expression("foo")]
    );
}

fn reassemble(tokens: &[Token]) -> String {
    let mut out = String::new();
    for (i, t) in tokens.iter().enumerate() {
        out.push_str(t.value());
        if i + 1 < tokens.len() {
            match t.kind() {
                TokenKind::Literal => out.push_str("${{"),
                TokenKind::Expression => out.push_str("}}"),
            }
        }
    }
    out
}

#[test]
fn tokenize_round_trips_exactly() {
    let inputs = [
        "",
        "plain",
        "${{ expr }}",
        "a${{b}}c${{d}}e",
        "${{unterminated",
        "weird }} close first ${{ then open",
        "non-ascii \u{00e9}${{ caf\u{00e9} }} done",
        "$${{{x}}}",
    ];
    for input in inputs {
        let tokens = tokenize(input);
        assert_eq!(reassemble(&tokens), input, "round trip failed for {input:?}");
    }
}

#[test]
fn token_accessors_report_value_and_kind() {
    let t = Token::string("abc");
    assert_eq!(t.value(), "abc");
    assert_eq!(t.kind(), TokenKind::Literal);
    let e = Token::expression("x.y");
    assert_eq!(e.value(), "x.y");
    assert_eq!(e.kind(), TokenKind::Expression);
}
