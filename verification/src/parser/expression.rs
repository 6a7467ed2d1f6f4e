//! The embedded-expression tokenizer: splits a string scalar into an
//! alternating sequence of literal text and `${{ ... }}` expression segments.
use vstd::prelude::*;

verus! {

/// The kind of a token.
#[derive(Debug, Clone, Copy, PartialEq, Eq, Structural)]
pub enum TokenKind {
    /// Literal text outside of any expression.
    Literal,
    /// The inside of an expression (between `${{` and `}}`).
    Expression,
}

/// A slice of the tokenized string together with its kind.
#[derive(Debug, Clone, PartialEq, Eq)]
pub struct Token<'a> {
    pub value: &'a str,
    pub kind: TokenKind,
}

impl Token<'_> {
    pub fn value(&self) -> (r: &str)
        ensures
            r@ == self.value@,
    {
        self.value
    }

    pub fn kind(&self) -> (r: TokenKind)
        ensures
            r == self.kind,
    {
        self.kind
    }

    /// A literal-text token.
    pub fn string(value: &str) -> (r: Token<'_>)
        ensures
            r.value@ == value@ && r.kind == TokenKind::Literal,
    {
        Token { value, kind: TokenKind::Literal }
    }

    /// An expression token.
    pub fn expression(value: &str) -> (r: Token<'_>)
        ensures
            r.value@ == value@ && r.kind == TokenKind::Expression,
    {
        Token { value, kind: TokenKind::Expression }
    }
}

/// The marker that opens an expression.
pub open spec fn open_marker() -> Seq<char> {
    seq!['$', '{', '{']
}

/// The marker that closes an expression.
pub open spec fn close_marker() -> Seq<char> {
    seq!['}', '}']
}

/// The marker searched for while scanning in mode `k`.
pub open spec fn marker_for(k: TokenKind) -> Seq<char> {
    match k {
        TokenKind::Literal => open_marker(),
        TokenKind::Expression => close_marker(),
    }
}

/// The mode entered after the marker for mode `k` is crossed.
pub open spec fn flip(k: TokenKind) -> TokenKind {
    match k {
        TokenKind::Literal => TokenKind::Expression,
        TokenKind::Expression => TokenKind::Literal,
    }
}

/// `pat` occurs in `s` starting at index `i`.
pub open spec fn matches_at(s: Seq<char>, pat: Seq<char>, i: int) -> bool {
    0 <= i && i + pat.len() <= s.len() && s.subrange(i, i + pat.len()) == pat
}

/// The least index `j >= i` at which `pat` occurs in `s`, if any.
pub open spec fn find_from(s: Seq<char>, pat: Seq<char>, i: int) -> Option<int>
    decreases s.len() - i,
    when 0 <= i && pat.len() > 0
{
    if i + pat.len() > s.len() {
        None
    } else if matches_at(s, pat, i) {
        Some(i)
    } else {
        find_from(s, pat, i + 1)
    }
}

/// What `find_from` returns: the first match at or after `i`, or a guarantee
/// that there is none.
pub proof fn lemma_find_from_props(s: Seq<char>, pat: Seq<char>, i: int)
    requires
        0 <= i,
        pat.len() > 0,
    ensures
        match find_from(s, pat, i) {
            Some(j) => i <= j && j + pat.len() <= s.len() && matches_at(s, pat, j) && (forall|k: int|
                i <= k < j ==> !matches_at(s, pat, k)),
            None => forall|k: int| i <= k ==> !matches_at(s, pat, k),
        },
    decreases s.len() - i,
{
    if i + pat.len() > s.len() {
        assert forall|k: int| i <= k implies !matches_at(s, pat, k) by {
            assert(k + pat.len() > s.len());
        }
    } else if matches_at(s, pat, i) {
    } else {
        lemma_find_from_props(s, pat, i + 1);
    }
}

/// The token sequence produced by scanning `s` from index `i` in mode `k`.
pub open spec fn spec_tokens_from(s: Seq<char>, i: int, k: TokenKind) -> Seq<(Seq<char>, TokenKind)>
    decreases s.len() - i,
    when 0 <= i <= s.len()
    via spec_tokens_from_decreases
{
    match find_from(s, marker_for(k), i) {
        None => seq![(s.subrange(i, s.len() as int), k)],
        Some(j) => seq![(s.subrange(i, j), k)] + spec_tokens_from(
            s,
            j + marker_for(k).len(),
            flip(k),
        ),
    }
}

#[via_fn]
proof fn spec_tokens_from_decreases(s: Seq<char>, i: int, k: TokenKind) {
    lemma_find_from_props(s, marker_for(k), i);
}

/// The token sequence of a whole string: scan from the start in literal mode.
pub open spec fn spec_tokenize(s: Seq<char>) -> Seq<(Seq<char>, TokenKind)> {
    spec_tokens_from(s, 0, TokenKind::Literal)
}

/// The mathematical image of a sequence of tokens.
pub open spec fn token_models<'a>(ts: Seq<Token<'a>>) -> Seq<(Seq<char>, TokenKind)> {
    ts.map_values(|t: Token<'a>| (t.value@, t.kind))
}

/// Find the opening marker `${{` at or after `from`, scanning by character.
fn find_open(text: &str, from: usize) -> (r: Option<usize>)
    requires
        from <= text@.len(),
    ensures
        match r {
            Some(j) => find_from(text@, open_marker(), from as int) == Some(j as int),
            None => find_from(text@, open_marker(), from as int) is None,
        },
{
    let len = text.unicode_len();
    let mut i = from;
    while len - i >= 3
        invariant
            from <= i <= len,
            len == text@.len(),
            find_from(text@, open_marker(), from as int) == find_from(text@, open_marker(), i as int),
        decreases len - i,
    {
        let c0 = text.get_char(i);
        let c1 = text.get_char(i + 1);
        let c2 = text.get_char(i + 2);
        if c0 == '$' && c1 == '{' && c2 == '{' {
            proof {
                assert(text@.subrange(i as int, i + 3) =~= open_marker());
                assert(matches_at(text@, open_marker(), i as int));
            }
            return Some(i);
        }
        proof {
            assert(text@.subrange(i as int, i + 3)[0] == c0);
            assert(text@.subrange(i as int, i + 3)[1] == c1);
            assert(text@.subrange(i as int, i + 3)[2] == c2);
            assert(!matches_at(text@, open_marker(), i as int));
        }
        i = i + 1;
    }
    proof {
        assert(i + open_marker().len() > text@.len());
    }
    None
}

/// Find the closing marker `}}` at or after `from`, scanning by character.
fn find_close(text: &str, from: usize) -> (r: Option<usize>)
    requires
        from <= text@.len(),
    ensures
        match r {
            Some(j) => find_from(text@, close_marker(), from as int) == Some(j as int),
            None => find_from(text@, close_marker(), from as int) is None,
        },
{
    let len = text.unicode_len();
    let mut i = from;
    while len - i >= 2
        invariant
            from <= i <= len,
            len == text@.len(),
            find_from(text@, close_marker(), from as int) == find_from(text@, close_marker(), i as int),
        decreases len - i,
    {
        let c0 = text.get_char(i);
        let c1 = text.get_char(i + 1);
        if c0 == '}' && c1 == '}' {
            proof {
                assert(text@.subrange(i as int, i + 2) =~= close_marker());
                assert(matches_at(text@, close_marker(), i as int));
            }
            return Some(i);
        }
        proof {
            assert(text@.subrange(i as int, i + 2)[0] == c0);
            assert(text@.subrange(i as int, i + 2)[1] == c1);
            assert(!matches_at(text@, close_marker(), i as int));
        }
        i = i + 1;
    }
    proof {
        assert(i + close_marker().len() > text@.len());
    }
    None
}

/// `s` contains none of the characters the two markers are built from.
pub open spec fn marker_free(s: Seq<char>) -> bool {
    forall|i: int| 0 <= i < s.len() ==> s[i] != '$' && s[i] != '{' && s[i] != '}'
}

/// Completeness of `find_from`: a match at `j` with no earlier match at or
/// after `i` is exactly what `find_from` returns.
pub proof fn lemma_find_from_first(s: Seq<char>, pat: Seq<char>, i: int, j: int)
    requires
        0 <= i <= j,
        pat.len() > 0,
        matches_at(s, pat, j),
        forall|k: int| i <= k < j ==> !matches_at(s, pat, k),
    ensures
        find_from(s, pat, i) == Some(j),
    decreases j - i,
{
    if i < j {
        lemma_find_from_first(s, pat, i + 1, j);
    }
}

/// A string without marker characters tokenizes to exactly one literal token
/// holding the whole string.
pub proof fn lemma_tokenize_without_markers(s: Seq<char>)
    requires
        marker_free(s),
    ensures
        spec_tokenize(s) == seq![(s, TokenKind::Literal)],
{
    lemma_find_from_props(s, open_marker(), 0);
    match find_from(s, open_marker(), 0) {
        Some(j) => {
            assert(s.subrange(j, j + 3)[0] == s[j]);
            assert(s[j] == '$');
            assert(false);
        },
        None => {},
    }
    assert(s.subrange(0, s.len() as int) =~= s);
}

/// A single complete expression between two marker-free pieces tokenizes to
/// the literal before it, the expression body, and an empty trailing literal.
pub proof fn lemma_tokenize_single_expression(a: Seq<char>, b: Seq<char>)
    requires
        marker_free(a),
        marker_free(b),
    ensures
        spec_tokenize(a + open_marker() + b + close_marker()) == seq![
            (a, TokenKind::Literal),
            (b, TokenKind::Expression),
            (Seq::<char>::empty(), TokenKind::Literal),
        ],
{
    let s = a + open_marker() + b + close_marker();
    let al = a.len() as int;
    let bl = b.len() as int;
    let len = s.len() as int;
    assert(len == al + 3 + bl + 2);
    assert(s.subrange(al, al + 3) =~= open_marker());
    assert forall|k: int| 0 <= k < al implies !matches_at(s, open_marker(), k) by {
        if matches_at(s, open_marker(), k) {
            assert(s.subrange(k, k + 3)[0] == s[k]);
            assert(s[k] == a[k]);
        }
    }
    lemma_find_from_first(s, open_marker(), 0, al);
    assert(s.subrange(al + 3, al + 3 + bl) =~= b);
    assert(s.subrange(al + 3 + bl, len) =~= close_marker());
    assert forall|k: int| al + 3 <= k < al + 3 + bl implies !matches_at(s, close_marker(), k) by {
        if matches_at(s, close_marker(), k) {
            assert(s.subrange(k, k + 2)[0] == s[k]);
            assert(s[k] == b[k - al - 3]);
        }
    }
    lemma_find_from_first(s, close_marker(), al + 3, al + 3 + bl);
    lemma_find_from_props(s, open_marker(), len);
    assert(s.subrange(0, al) =~= a);
    assert(s.subrange(len, len) =~= Seq::<char>::empty());
    assert(spec_tokens_from(s, al + 3 + bl + 2, TokenKind::Literal) =~= seq![
        (Seq::<char>::empty(), TokenKind::Literal),
    ]);
    assert(spec_tokens_from(s, al + 3, TokenKind::Expression) =~= seq![
        (b, TokenKind::Expression),
        (Seq::<char>::empty(), TokenKind::Literal),
    ]);
    assert(spec_tokenize(s) =~= seq![
        (a, TokenKind::Literal),
        (b, TokenKind::Expression),
        (Seq::<char>::empty(), TokenKind::Literal),
    ]);
}

/// The text rebuilt from a token sequence: token texts concatenated, with the
/// marker crossed after each token reinserted at each boundary.
pub open spec fn reassemble(ts: Seq<(Seq<char>, TokenKind)>) -> Seq<char>
    decreases ts.len(),
{
    if ts.len() == 0 {
        Seq::empty()
    } else if ts.len() == 1 {
        ts[0].0
    } else {
        ts[0].0 + marker_for(ts[0].1) + reassemble(ts.drop_first())
    }
}

proof fn lemma_reassemble_from(s: Seq<char>, i: int, k: TokenKind)
    requires
        0 <= i <= s.len(),
    ensures
        reassemble(spec_tokens_from(s, i, k)) == s.subrange(i, s.len() as int),
    decreases s.len() - i,
{
    let m = marker_for(k);
    lemma_find_from_props(s, m, i);
    match find_from(s, m, i) {
        None => {},
        Some(j) => {
            let rest = spec_tokens_from(s, j + m.len(), flip(k));
            let ts = seq![(s.subrange(i, j), k)] + rest;
            assert(rest.len() >= 1);
            assert(ts.drop_first() =~= rest);
            lemma_reassemble_from(s, j + m.len(), flip(k));
            assert(s.subrange(j, j + m.len() as int) =~= m);
            assert(s.subrange(i, j) + m + s.subrange(j + m.len(), s.len() as int) =~= s.subrange(
                i,
                s.len() as int,
            ));
        },
    }
}

/// Tokenization is lossless: reassembling the token sequence of any string
/// gives back that string exactly.
pub proof fn lemma_tokenize_round_trip(s: Seq<char>)
    ensures
        reassemble(spec_tokenize(s)) == s,
{
    lemma_reassemble_from(s, 0, TokenKind::Literal);
    assert(s.subrange(0, s.len() as int) =~= s);
}

/// Split `text` into alternating literal and expression tokens. The scan
/// starts in literal mode, crosses `${{` into expression mode and `}}` back;
/// an unterminated expression is emitted as a final expression token rather
/// than rejected.
pub fn tokenize<'a>(text: &'a str) -> (r: Vec<Token<'a>>)
    ensures
        token_models(r@) == spec_tokenize(text@),
{
    let len = text.unicode_len();
    let mut pos: usize = 0;
    let mut kind = TokenKind::Literal;
    let mut out: Vec<Token<'a>> = Vec::new();
    loop
        invariant_except_break
            pos <= len,
            len == text@.len(),
            spec_tokenize(text@) == token_models(out@) + spec_tokens_from(
                text@,
                pos as int,
                kind,
            ),
        ensures
            token_models(out@) == spec_tokenize(text@),
        decreases len - pos,
    {
        let found = match kind {
            TokenKind::Literal => find_open(text, pos),
            TokenKind::Expression => find_close(text, pos),
        };
        let mlen: usize = match kind {
            TokenKind::Literal => 3,
            TokenKind::Expression => 2,
        };
        let ghost prev = out@;
        match found {
            Some(j) => {
                proof {
                    lemma_find_from_props(text@, marker_for(kind), pos as int);
                }
                out.push(Token { value: text.substring_char(pos, j), kind });
                proof {
                    assert(token_models(out@) =~= token_models(prev) + seq![
                        (text@.subrange(pos as int, j as int), kind),
                    ]);
                }
                pos = j + mlen;
                kind = match kind {
                    TokenKind::Literal => TokenKind::Expression,
                    TokenKind::Expression => TokenKind::Literal,
                };
            },
            None => {
                out.push(Token { value: text.substring_char(pos, len), kind });
                proof {
                    assert(token_models(out@) =~= token_models(prev) + seq![
                        (text@.subrange(pos as int, len as int), kind),
                    ]);
                }
                break ;
            },
        }
    }
    out
}

} // verus!
