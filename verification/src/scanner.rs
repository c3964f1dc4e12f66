//! The lexer: source text, seen as a sequence of extended grapheme clusters,
//! to an ordered token sequence terminated by one end-of-input token.
//!
//! The function [`lex_from`] is the mathematical model of the whole pass:
//! `Scanner::scan_tokens` is proved to return exactly its tokens and its
//! errors. Scan errors are collected and returned beside the (possibly
//! partial) token sequence; a caller that sees any error must treat the run
//! as failed.

use crate::chars::{
    alnum_cluster, alpha_cluster, digit_cluster, vec_is_alnum, vec_is_alpha, vec_is_digit,
};
use crate::numeric::{num_from_lexeme, number_of_lexeme};
use crate::segment::{cluster_views, grapheme_clusters, graphemes_of};
use crate::token::{token_views, Token, TokenV};
use crate::token_type::{TokenType, TokenTypeV};
use crate::utils::{join_clusters, string_of_chars, take_slice, vec_eq_str};
use vstd::prelude::*;

verus! {

/// A scan failure: what was found, and on which line.
#[derive(Debug, Clone, PartialEq)]
pub enum ScanErrorKind {
    /// A cluster that starts no token.
    UnexpectedCharacter { cluster: String },
    /// A string literal with no closing quote before end of input.
    UnterminatedString,
    /// A block comment with no closing delimiter before end of input.
    UnterminatedComment,
}

/// The mathematical shape of a scan failure kind.
pub enum ScanErrorKindV {
    UnexpectedCharacter { cluster: Seq<char> },
    UnterminatedString,
    UnterminatedComment,
}

impl View for ScanErrorKind {
    type V = ScanErrorKindV;

    open spec fn view(&self) -> ScanErrorKindV {
        match self {
            ScanErrorKind::UnexpectedCharacter { cluster } => ScanErrorKindV::UnexpectedCharacter {
                cluster: cluster@,
            },
            ScanErrorKind::UnterminatedString => ScanErrorKindV::UnterminatedString,
            ScanErrorKind::UnterminatedComment => ScanErrorKindV::UnterminatedComment,
        }
    }
}

#[derive(Debug, Clone, PartialEq)]
pub struct ScanError {
    pub kind: ScanErrorKind,
    pub line: usize,
}

/// The mathematical shape of a scan failure.
pub struct ScanErrorV {
    pub kind: ScanErrorKindV,
    pub line: nat,
}

impl View for ScanError {
    type V = ScanErrorV;

    open spec fn view(&self) -> ScanErrorV {
        ScanErrorV { kind: self.kind@, line: self.line as nat }
    }
}

/// The views of a sequence of scan errors.
pub open spec fn error_views(es: Seq<ScanError>) -> Seq<ScanErrorV> {
    Seq::new(es.len(), |i: int| es[i]@)
}

/// What one scan of a cluster sequence produces: its tokens and its errors,
/// each in source order.
#[verifier::ext_equal]
pub struct ScanOut {
    pub tokens: Seq<TokenV>,
    pub errors: Seq<ScanErrorV>,
}

/// A cluster of exactly one given character.
pub open spec fn single(c: Seq<char>, ch: char) -> bool {
    c.len() == 1 && c[0] == ch
}

/// A whitespace cluster: space, tab, carriage return or newline.
pub open spec fn is_ws_cluster(c: Seq<char>) -> bool {
    single(c, ' ') || single(c, '\t') || single(c, '\r') || single(c, '\n')
}

/// The next line number; the counter saturates at the machine limit.
pub open spec fn next_line(line: nat) -> nat {
    if line < usize::MAX as nat {
        line + 1
    } else {
        line
    }
}

/// The line number after consuming one cluster.
pub open spec fn bump(line: nat, c: Seq<char>) -> nat {
    if single(c, '\n') {
        next_line(line)
    } else {
        line
    }
}

/// The line number after consuming clusters `[i, i + n)`.
pub open spec fn advance_lines(line: nat, cs: Seq<Seq<char>>, i: nat, n: nat) -> nat
    decreases n,
{
    if n == 0 {
        line
    } else {
        bump(advance_lines(line, cs, i, (n - 1) as nat), cs[i + n - 1])
    }
}

/// How many clusters remain from position `i`; the termination measure of
/// [`lex_from`].
pub open spec fn scan_fuel(cs: Seq<Seq<char>>, i: nat) -> nat {
    if i <= cs.len() {
        (cs.len() - i) as nat
    } else {
        0
    }
}

/// Length of a string body starting at `i`: clusters up to, not including,
/// the closing quote, or to the end of input if there is none.
pub open spec fn str_body_len(cs: Seq<Seq<char>>, i: nat) -> nat
    decreases cs.len() - i,
{
    if i >= cs.len() || single(cs[i as int], '"') {
        0
    } else {
        1 + str_body_len(cs, i + 1)
    }
}

/// Length of the run of digit clusters starting at `i`.
pub open spec fn digits_len(cs: Seq<Seq<char>>, i: nat) -> nat
    decreases cs.len() - i,
{
    if i >= cs.len() || !digit_cluster(cs[i as int]) {
        0
    } else {
        1 + digits_len(cs, i + 1)
    }
}

/// Length of the run of alphanumeric clusters starting at `i`.
pub open spec fn alnum_len(cs: Seq<Seq<char>>, i: nat) -> nat
    decreases cs.len() - i,
{
    if i >= cs.len() || !alnum_cluster(cs[i as int]) {
        0
    } else {
        1 + alnum_len(cs, i + 1)
    }
}

/// Length of a line comment body from `i`: clusters up to, not including, the
/// next newline, or to the end of input.
pub open spec fn line_comment_len(cs: Seq<Seq<char>>, i: nat) -> nat
    decreases cs.len() - i,
{
    if i >= cs.len() || single(cs[i as int], '\n') {
        0
    } else {
        1 + line_comment_len(cs, i + 1)
    }
}

/// Length of a block comment body from `i`: clusters up to, not including,
/// the first `*` `/` pair, or to the end of input if there is none.
pub open spec fn block_comment_len(cs: Seq<Seq<char>>, i: nat) -> nat
    decreases cs.len() - i,
{
    if i >= cs.len() {
        0
    } else if single(cs[i as int], '*') && i + 1 < cs.len() && single(cs[i as int + 1], '/') {
        0
    } else {
        1 + block_comment_len(cs, i + 1)
    }
}

/// The number-literal length starting at a digit cluster: a maximal digit
/// run, plus a fractional part only when a dot is followed by another digit.
pub open spec fn number_len(cs: Seq<Seq<char>>, i: nat) -> nat {
    let d1 = digits_len(cs, i);
    let j = i + d1;
    if j < cs.len() && single(cs[j as int], '.') && j + 1 < cs.len() && digit_cluster(cs[j as int + 1]) {
        (d1 + 1 + digits_len(cs, (j + 1) as nat)) as nat
    } else {
        d1
    }
}

/// The fixed keyword table: a lexeme that is a keyword gets its keyword kind,
/// any other lexeme is an identifier.
pub open spec fn keyword_or_identifier(lx: Seq<char>) -> TokenTypeV {
    if lx == "and"@ {
        TokenTypeV::AND
    } else if lx == "class"@ {
        TokenTypeV::CLASS
    } else if lx == "else"@ {
        TokenTypeV::ELSE
    } else if lx == "false"@ {
        TokenTypeV::FALSE
    } else if lx == "for"@ {
        TokenTypeV::FOR
    } else if lx == "fun"@ {
        TokenTypeV::FUN
    } else if lx == "if"@ {
        TokenTypeV::IF
    } else if lx == "nil"@ {
        TokenTypeV::NIL
    } else if lx == "or"@ {
        TokenTypeV::OR
    } else if lx == "print"@ {
        TokenTypeV::PRINT
    } else if lx == "return"@ {
        TokenTypeV::RETURN
    } else if lx == "super"@ {
        TokenTypeV::SUPER
    } else if lx == "this"@ {
        TokenTypeV::THIS
    } else if lx == "true"@ {
        TokenTypeV::TRUE
    } else if lx == "var"@ {
        TokenTypeV::VAR
    } else if lx == "while"@ {
        TokenTypeV::WHILE
    } else {
        TokenTypeV::IDENTIFIER
    }
}

/// The token kind of a cluster that alone makes a token.
pub open spec fn simple_token_type(c: Seq<char>) -> Option<TokenTypeV> {
    if single(c, '(') {
        Some(TokenTypeV::LEFT_PAREN)
    } else if single(c, ')') {
        Some(TokenTypeV::RIGHT_PAREN)
    } else if single(c, '{') {
        Some(TokenTypeV::LEFT_BRACE)
    } else if single(c, '}') {
        Some(TokenTypeV::RIGHT_BRACE)
    } else if single(c, ',') {
        Some(TokenTypeV::COMMA)
    } else if single(c, '.') {
        Some(TokenTypeV::DOT)
    } else if single(c, '-') {
        Some(TokenTypeV::MINUS)
    } else if single(c, '+') {
        Some(TokenTypeV::PLUS)
    } else if single(c, ';') {
        Some(TokenTypeV::SEMICOLON)
    } else if single(c, '*') {
        Some(TokenTypeV::STAR)
    } else {
        None
    }
}

/// The token kinds of a cluster that starts a maximal-munch pair: the kind
/// when a `=` follows, and the kind when none does.
pub open spec fn two_char_start(c: Seq<char>) -> Option<(TokenTypeV, TokenTypeV)> {
    if single(c, '!') {
        Some((TokenTypeV::BANG_EQUAL, TokenTypeV::BANG))
    } else if single(c, '=') {
        Some((TokenTypeV::EQUAL_EQUAL, TokenTypeV::EQUAL))
    } else if single(c, '<') {
        Some((TokenTypeV::LESS_EQUAL, TokenTypeV::LESS))
    } else if single(c, '>') {
        Some((TokenTypeV::GREATER_EQUAL, TokenTypeV::GREATER))
    } else {
        None
    }
}

/// Prepends tokens and errors to a scan result.
pub open spec fn append_out(ts: Seq<TokenV>, es: Seq<ScanErrorV>, rest: ScanOut) -> ScanOut {
    ScanOut { tokens: ts + rest.tokens, errors: es + rest.errors }
}

/// Prepends one token to a scan result.
pub open spec fn with_token(t: TokenV, rest: ScanOut) -> ScanOut {
    ScanOut { tokens: seq![t] + rest.tokens, errors: rest.errors }
}

/// Prepends one error to a scan result.
pub open spec fn with_error(e: ScanErrorV, rest: ScanOut) -> ScanOut {
    ScanOut { tokens: rest.tokens, errors: seq![e] + rest.errors }
}

/// A token whose lexeme is the join of clusters `[i, i + n)`.
pub open spec fn span_token(typ: TokenTypeV, cs: Seq<Seq<char>>, i: nat, n: nat, line: nat) -> TokenV {
    TokenV { typ, lexeme: join_clusters(cs, i as int, n as int), line }
}

/// The model of the whole lexical pass from position `i` on line `line`:
/// every token and every error of the rest of the input, ending with exactly
/// one end-of-input token.
pub open spec fn lex_from(cs: Seq<Seq<char>>, i: nat, line: nat) -> ScanOut
    decreases scan_fuel(cs, i),
{
    if i >= cs.len() {
        ScanOut {
            tokens: seq![TokenV { typ: TokenTypeV::EOF, lexeme: Seq::empty(), line }],
            errors: Seq::empty(),
        }
    } else {
        let c = cs[i as int];
        if is_ws_cluster(c) {
            lex_from(cs, i + 1, bump(line, c))
        } else {
            match simple_token_type(c) {
                Some(t) => with_token(span_token(t, cs, i, 1, line), lex_from(cs, i + 1, line)),
                None => match two_char_start(c) {
                    Some(pair) => if i + 1 < cs.len() && single(cs[i as int + 1], '=') {
                        with_token(span_token(pair.0, cs, i, 2, line), lex_from(cs, i + 2, line))
                    } else {
                        with_token(span_token(pair.1, cs, i, 1, line), lex_from(cs, i + 1, line))
                    },
                    None => if single(c, '/') {
                        if i + 1 < cs.len() && single(cs[i as int + 1], '/') {
                            lex_from(cs, i + 2 + line_comment_len(cs, i + 2), line)
                        } else if i + 1 < cs.len() && single(cs[i as int + 1], '*') {
                            let k = block_comment_len(cs, i + 2);
                            let line2 = advance_lines(line, cs, i + 2, k);
                            if i + 2 + k >= cs.len() {
                                with_error(
                                    ScanErrorV {
                                        kind: ScanErrorKindV::UnterminatedComment,
                                        line: line2,
                                    },
                                    lex_from(cs, i + 2 + k, line2),
                                )
                            } else {
                                lex_from(cs, i + 2 + k + 2, line2)
                            }
                        } else {
                            with_token(
                                span_token(TokenTypeV::SLASH, cs, i, 1, line),
                                lex_from(cs, i + 1, line),
                            )
                        }
                    } else if single(c, '"') {
                        let k = str_body_len(cs, i + 1);
                        let line2 = advance_lines(line, cs, i + 1, k);
                        if i + 1 + k >= cs.len() {
                            with_error(
                                ScanErrorV { kind: ScanErrorKindV::UnterminatedString, line: line2 },
                                lex_from(cs, i + 1 + k, line2),
                            )
                        } else {
                            with_token(
                                TokenV {
                                    typ: TokenTypeV::STRING(join_clusters(cs, i as int + 1, k as int)),
                                    lexeme: join_clusters(cs, i as int, k as int + 2),
                                    line: line2,
                                },
                                lex_from(cs, i + 1 + k + 1, line2),
                            )
                        }
                    } else if digit_cluster(c) {
                        let n = number_len(cs, i);
                        with_token(
                            TokenV {
                                typ: TokenTypeV::NUMBER(
                                    number_of_lexeme(join_clusters(cs, i as int, n as int)),
                                ),
                                lexeme: join_clusters(cs, i as int, n as int),
                                line,
                            },
                            lex_from(cs, i + n, line),
                        )
                    } else if alpha_cluster(c) {
                        let n = 1 + alnum_len(cs, i + 1);
                        with_token(
                            TokenV {
                                typ: keyword_or_identifier(join_clusters(cs, i as int, n as int)),
                                lexeme: join_clusters(cs, i as int, n as int),
                                line,
                            },
                            lex_from(cs, i + n, line),
                        )
                    } else {
                        with_error(
                            ScanErrorV {
                                kind: ScanErrorKindV::UnexpectedCharacter { cluster: c },
                                line,
                            },
                            lex_from(cs, i + 1, line),
                        )
                    },
                },
            }
        }
    }
}

/// What the scan has produced so far, followed by everything the rest of the
/// input will produce.
pub open spec fn scan_accum(
    tokens: Seq<Token>,
    errors: Seq<ScanError>,
    cs: Seq<Seq<char>>,
    i: nat,
    line: nat,
) -> ScanOut {
    append_out(token_views(tokens), error_views(errors), lex_from(cs, i, line))
}

/// The lexer. Source text is segmented once into grapheme clusters; a
/// `[start, current)` window then walks the cluster sequence.
pub struct Scanner {
    source: Vec<Vec<char>>,
    tokens: Vec<Token>,
    errors: Vec<ScanError>,
    start: usize,
    current: usize,
    line: usize,
}

impl Scanner {
    /// The cluster sequence this scanner walks.
    pub closed spec fn clusters(&self) -> Seq<Seq<char>> {
        cluster_views(self.source@)
    }

    /// A freshly built scanner: nothing consumed, nothing produced, line 1.
    pub closed spec fn initial(&self) -> bool {
        self.tokens@.len() == 0 && self.errors@.len() == 0 && self.current == 0 && self.line == 1
    }

    pub fn new(source: &str) -> (s: Scanner)
        ensures
            s.initial(),
            s.clusters() == graphemes_of(source@),
    {
        Scanner {
            source: grapheme_clusters(source),
            tokens: Vec::new(),
            errors: Vec::new(),
            start: 0,
            current: 0,
            line: 1,
        }
    }

    /// Scans the whole input: the tokens, ending with one end-of-input token,
    /// and every scan error, exactly as the model [`lex_from`] gives them.
    pub fn scan_tokens(self) -> (r: (Vec<Token>, Vec<ScanError>))
        requires
            self.initial(),
        ensures
            ({
                let out = lex_from(self.clusters(), 0, 1);
                token_views(r.0@) == out.tokens && error_views(r.1@) == out.errors
            }),
    {
        let mut this = self;
        let ghost cs = this.clusters();
        proof {
            assert(token_views(this.tokens@) =~= Seq::<TokenV>::empty());
            assert(error_views(this.errors@) =~= Seq::<ScanErrorV>::empty());
            assert(scan_accum(this.tokens@, this.errors@, cs, 0, 1) =~= lex_from(cs, 0, 1));
        }
        loop
            invariant
                cs == cluster_views(this.source@),
                this.current <= this.source@.len(),
                scan_accum(this.tokens@, this.errors@, cs, this.current as nat, this.line as nat)
                    =~= lex_from(cs, 0, 1),
            ensures
                cs == cluster_views(this.source@),
                this.current == this.source@.len(),
                scan_accum(this.tokens@, this.errors@, cs, this.current as nat, this.line as nat)
                    =~= lex_from(cs, 0, 1),
            decreases this.source@.len() - this.current,
        {
            let more = this.scan_token();
            if !more {
                break ;
            }
        }
        let line = this.line;
        let eof = Token::new(TokenType::EOF, String::new(), line);
        this.tokens.push(eof);
        proof {
            let out = lex_from(cs, this.current as nat, this.line as nat);
            assert(out.tokens =~= seq![
                TokenV { typ: TokenTypeV::EOF, lexeme: Seq::empty(), line: this.line as nat },
            ]);
            assert(eof@ == (TokenV {
                typ: TokenTypeV::EOF,
                lexeme: Seq::<char>::empty(),
                line: this.line as nat,
            }));
            assert(token_views(this.tokens@) =~= lex_from(cs, 0, 1).tokens);
            assert(error_views(this.errors@) =~= lex_from(cs, 0, 1).errors);
        }
        (this.tokens, this.errors)
    }

    /// One step of the scan: skips whitespace, then consumes one lexeme and
    /// pushes its token or error. Returns whether any input remained.
    fn scan_token(&mut self) -> (more: bool)
        requires
            old(self).current <= old(self).source@.len(),
        ensures
            final(self).source@ == old(self).source@,
            final(self).current <= final(self).source@.len(),
            scan_accum(
                final(self).tokens@,
                final(self).errors@,
                cluster_views(final(self).source@),
                final(self).current as nat,
                final(self).line as nat,
            ) =~= scan_accum(
                old(self).tokens@,
                old(self).errors@,
                cluster_views(final(self).source@),
                old(self).current as nat,
                old(self).line as nat,
            ),
            more ==> final(self).current > old(self).current,
            !more ==> final(self).current == final(self).source@.len(),
    {
        let ghost cs = cluster_views(self.source@);
        // Skip whitespace, counting lines.
        loop
            invariant
                self.source@ == old(self).source@,
                cs == cluster_views(self.source@),
                old(self).current <= self.current <= self.source@.len(),
                self.start == old(self).start,
                self.tokens@ == old(self).tokens@,
                self.errors@ == old(self).errors@,
                lex_from(cs, self.current as nat, self.line as nat) == lex_from(
                    cs,
                    old(self).current as nat,
                    old(self).line as nat,
                ),
            ensures
                self.source@ == old(self).source@,
                cs == cluster_views(self.source@),
                old(self).current <= self.current <= self.source@.len(),
                self.start == old(self).start,
                self.tokens@ == old(self).tokens@,
                self.errors@ == old(self).errors@,
                lex_from(cs, self.current as nat, self.line as nat) == lex_from(
                    cs,
                    old(self).current as nat,
                    old(self).line as nat,
                ),
                self.current == self.source@.len() || !is_ws_cluster(cs[self.current as int]),
            decreases self.source@.len() - self.current,
        {
            if self.current >= self.source.len() {
                break ;
            }
            proof {
                assert(cs[self.current as int] == self.source@[self.current as int]@);
            }
            let ws = is_ws_vec(&self.source[self.current]);
            if !ws {
                break ;
            }
            proof {
                assert(lex_from(cs, self.current as nat, self.line as nat) == lex_from(
                    cs,
                    self.current as nat + 1,
                    bump(self.line as nat, cs[self.current as int]),
                ));
            }
            if is1(&self.source[self.current], '\n') {
                if self.line < usize::MAX {
                    self.line = self.line + 1;
                }
            }
            self.current = self.current + 1;
        }
        if self.current >= self.source.len() {
            return false;
        }
        self.start = self.current;
        let ghost cur0 = self.current as nat;
        let ghost line0 = self.line as nat;
        proof {
            assert(cs[cur0 as int] == self.source@[cur0 as int]@);
        }
        // Single-cluster tokens.
        let simple = simple_token_exec(&self.source[self.current]);
        if let Some(typ) = simple {
            let ghost tv = span_token(typ@, cs, cur0, 1, line0);
            proof {
                assert(lex_from(cs, cur0, line0) == with_token(tv, lex_from(cs, cur0 + 1, line0)));
            }
            self.push_span(typ, 1);
            proof {
                assert(scan_accum(
                    self.tokens@,
                    self.errors@,
                    cs,
                    self.current as nat,
                    self.line as nat,
                ) =~= scan_accum(old(self).tokens@, old(self).errors@, cs, cur0, line0));
            }
            return true;
        }
        // Maximal munch: a two-character operator beats its one-character head.
        let two = two_char_exec(&self.source[self.current]);
        if let Some(pair) = two {
            let (with_eq, without_eq) = pair;
            proof {
                if cur0 + 1 < cs.len() {
                    assert(cs[cur0 as int + 1] == self.source@[cur0 as int + 1]@);
                }
            }
            if self.current + 1 < self.source.len() && is1(&self.source[self.current + 1], '=') {
                let ghost tv = span_token(with_eq@, cs, cur0, 2, line0);
                proof {
                    assert(lex_from(cs, cur0, line0) == with_token(
                        tv,
                        lex_from(cs, cur0 + 2, line0),
                    ));
                }
                self.push_span(with_eq, 2);
                proof {
                    assert(scan_accum(
                        self.tokens@,
                        self.errors@,
                        cs,
                        self.current as nat,
                        self.line as nat,
                    ) =~= scan_accum(old(self).tokens@, old(self).errors@, cs, cur0, line0));
                }
            } else {
                let ghost tv = span_token(without_eq@, cs, cur0, 1, line0);
                proof {
                    assert(lex_from(cs, cur0, line0) == with_token(
                        tv,
                        lex_from(cs, cur0 + 1, line0),
                    ));
                }
                self.push_span(without_eq, 1);
                proof {
                    assert(scan_accum(
                        self.tokens@,
                        self.errors@,
                        cs,
                        self.current as nat,
                        self.line as nat,
                    ) =~= scan_accum(old(self).tokens@, old(self).errors@, cs, cur0, line0));
                }
            }
            return true;
        }
        if is1(&self.source[self.current], '/') {
            proof {
                if cur0 + 1 < cs.len() {
                    assert(cs[cur0 as int + 1] == self.source@[cur0 as int + 1]@);
                }
            }
            if self.current + 1 < self.source.len() && is1(&self.source[self.current + 1], '/') {
                // A line comment: consumed through end of line, no token.
                self.current = self.current + 2;
                let ghost s2 = self.current as nat;
                loop
                    invariant
                        self.source@ == old(self).source@,
                        cs == cluster_views(self.source@),
                        s2 <= self.current as nat <= self.source@.len(),
                        self.tokens@ == old(self).tokens@,
                        self.errors@ == old(self).errors@,
                        self.line as nat == line0,
                        line_comment_len(cs, s2) == self.current as nat - s2 + line_comment_len(
                            cs,
                            self.current as nat,
                        ),
                    ensures
                        self.source@ == old(self).source@,
                        cs == cluster_views(self.source@),
                        s2 <= self.current as nat <= self.source@.len(),
                        self.tokens@ == old(self).tokens@,
                        self.errors@ == old(self).errors@,
                        self.line as nat == line0,
                        self.current as nat == s2 + line_comment_len(cs, s2),
                    decreases self.source@.len() - self.current,
                {
                    if self.current >= self.source.len() {
                        proof {
                            assert(line_comment_len(cs, self.current as nat) == 0);
                        }
                        break ;
                    }
                    proof {
                        assert(cs[self.current as int] == self.source@[self.current as int]@);
                    }
                    let nl = is1(&self.source[self.current], '\n');
                    if nl {
                        proof {
                            assert(line_comment_len(cs, self.current as nat) == 0);
                        }
                        break ;
                    }
                    self.current = self.current + 1;
                }
                proof {
                    assert(lex_from(cs, cur0, line0) == lex_from(cs, self.current as nat, line0));
                }
                return true;
            } else if self.current + 1 < self.source.len() && is1(
                &self.source[self.current + 1],
                '*',
            ) {
                self.block_comment(Ghost(cur0), Ghost(line0));
                return true;
            } else {
                let ghost tv = span_token(TokenTypeV::SLASH, cs, cur0, 1, line0);
                proof {
                    assert(lex_from(cs, cur0, line0) == with_token(
                        tv,
                        lex_from(cs, cur0 + 1, line0),
                    ));
                }
                self.push_span(TokenType::SLASH, 1);
                proof {
                    assert(scan_accum(
                        self.tokens@,
                        self.errors@,
                        cs,
                        self.current as nat,
                        self.line as nat,
                    ) =~= scan_accum(old(self).tokens@, old(self).errors@, cs, cur0, line0));
                }
                return true;
            }
        }
        if is1(&self.source[self.current], '"') {
            self.string_literal(Ghost(cur0), Ghost(line0));
            return true;
        }
        if vec_is_digit(&self.source[self.current]) {
            self.number(Ghost(cur0), Ghost(line0));
            return true;
        }
        if vec_is_alpha(&self.source[self.current]) {
            self.identifier(Ghost(cur0), Ghost(line0));
            return true;
        }
        // Anything else: a scan error; scanning resumes at the next cluster.
        let cluster_chars = take_slice(&self.source, self.current, self.current + 1);
        let cluster = string_of_chars(&cluster_chars);
        let line = self.line;
        self.errors.push(ScanError { kind: ScanErrorKind::UnexpectedCharacter { cluster }, line });
        self.current = self.current + 1;
        proof {
            assert(join_clusters(cs, cur0 as int, 1) =~= cs[cur0 as int] + join_clusters(
                cs,
                cur0 as int + 1,
                0,
            ));
            assert(join_clusters(cs, cur0 as int, 1) =~= cs[cur0 as int]);
            let ev = ScanErrorV {
                kind: ScanErrorKindV::UnexpectedCharacter { cluster: cs[cur0 as int] },
                line: line0,
            };
            assert(lex_from(cs, cur0, line0) == with_error(ev, lex_from(cs, cur0 + 1, line0)));
            assert(self.errors@.last()@ == ev);
            assert(error_views(self.errors@) =~= error_views(old(self).errors@).push(ev));
            assert(scan_accum(self.tokens@, self.errors@, cs, self.current as nat, self.line as nat)
                =~= scan_accum(old(self).tokens@, old(self).errors@, cs, cur0, line0));
        }
        true
    }

    /// Pushes a token of `n` clusters from the current position, with the
    /// current line, and consumes them.
    fn push_span(&mut self, typ: TokenType, n: usize)
        requires
            old(self).current + n <= old(self).source@.len(),
        ensures
            final(self).source@ == old(self).source@,
            final(self).errors@ == old(self).errors@,
            final(self).line == old(self).line,
            final(self).current == old(self).current + n,
            token_views(final(self).tokens@) =~= token_views(old(self).tokens@).push(
                span_token(
                    typ@,
                    cluster_views(old(self).source@),
                    old(self).current as nat,
                    n as nat,
                    old(self).line as nat,
                ),
            ),
    {
        let src_len = self.source.len();
        proof {
            assert(self.current + n <= src_len);
        }
        let lexeme_chars = take_slice(&self.source, self.current, self.current + n);
        let lexeme = string_of_chars(&lexeme_chars);
        let line = self.line;
        let t = Token::new(typ, lexeme, line);
        self.tokens.push(t);
        self.current = self.current + n;
        proof {
            assert(token_views(self.tokens@) =~= token_views(old(self).tokens@).push(t@));
        }
    }

    fn block_comment(&mut self, Ghost(cur0): Ghost<nat>, Ghost(line0): Ghost<nat>)
        requires
            old(self).current as nat == cur0,
            old(self).line as nat == line0,
            cur0 + 2 <= old(self).source@.len(),
            single(cluster_views(old(self).source@)[cur0 as int], '/'),
            single(cluster_views(old(self).source@)[cur0 as int + 1], '*'),
            !is_ws_cluster(cluster_views(old(self).source@)[cur0 as int]),
            (simple_token_type(cluster_views(old(self).source@)[cur0 as int]) is None),
            (two_char_start(cluster_views(old(self).source@)[cur0 as int]) is None),
        ensures
            final(self).source@ == old(self).source@,
            final(self).current > old(self).current,
            final(self).current <= final(self).source@.len(),
            scan_accum(
                final(self).tokens@,
                final(self).errors@,
                cluster_views(final(self).source@),
                final(self).current as nat,
                final(self).line as nat,
            ) =~= scan_accum(
                old(self).tokens@,
                old(self).errors@,
                cluster_views(final(self).source@),
                cur0,
                line0,
            ),
    {
        let ghost cs = cluster_views(self.source@);
        let src_len = self.source.len();
        proof {
            assert(self.current + 2 <= src_len);
        }
        self.current = self.current + 2;
        let ghost s2 = self.current as nat;
        loop
            invariant
                self.source@ == old(self).source@,
                cs == cluster_views(self.source@),
                s2 == cur0 + 2,
                s2 <= self.current as nat <= self.source@.len(),
                self.tokens@ == old(self).tokens@,
                self.errors@ == old(self).errors@,
                block_comment_len(cs, s2) == self.current as nat - s2 + block_comment_len(
                    cs,
                    self.current as nat,
                ),
                self.line as nat == advance_lines(line0, cs, s2, (self.current as nat - s2) as nat),
            ensures
                self.source@ == old(self).source@,
                cs == cluster_views(self.source@),
                s2 <= self.current as nat <= self.source@.len(),
                self.tokens@ == old(self).tokens@,
                self.errors@ == old(self).errors@,
                self.current as nat == s2 + block_comment_len(cs, s2),
                self.line as nat == advance_lines(line0, cs, s2, block_comment_len(cs, s2)),
                self.current == self.source@.len() || self.current as nat + 1 < cs.len(),
            decreases self.source@.len() - self.current,
        {
            if self.current >= self.source.len() {
                proof {
                    assert(block_comment_len(cs, self.current as nat) == 0);
                }
                break ;
            }
            proof {
                assert(cs[self.current as int] == self.source@[self.current as int]@);
                if self.current as nat + 1 < cs.len() {
                    assert(cs[self.current as int + 1] == self.source@[self.current as int + 1]@);
                }
            }
            if is1(&self.source[self.current], '*') && self.current + 1 < self.source.len() && is1(
                &self.source[self.current + 1],
                '/',
            ) {
                proof {
                    assert(block_comment_len(cs, self.current as nat) == 0);
                }
                break ;
            }
            if is1(&self.source[self.current], '\n') {
                if self.line < usize::MAX {
                    self.line = self.line + 1;
                }
            }
            self.current = self.current + 1;
            proof {
                assert(advance_lines(line0, cs, s2, (self.current as nat - s2) as nat) == bump(
                    advance_lines(line0, cs, s2, (self.current as nat - 1 - s2) as nat),
                    cs[self.current as int - 1],
                ));
            }
        }
        let ghost k = block_comment_len(cs, s2);
        let ghost line2 = advance_lines(line0, cs, s2, k);
        if self.current >= self.source.len() {
            // Unterminated block comment: a scan error at the line reached.
            let line = self.line;
            self.errors.push(ScanError { kind: ScanErrorKind::UnterminatedComment, line });
            proof {
                let ev = ScanErrorV { kind: ScanErrorKindV::UnterminatedComment, line: line2 };
                assert(lex_from(cs, cur0, line0) == with_error(
                    ev,
                    lex_from(cs, cur0 + 2 + k, line2),
                ));
                assert(self.errors@.last()@ == ev);
                assert(error_views(self.errors@) =~= error_views(old(self).errors@).push(ev));
                assert(scan_accum(
                    self.tokens@,
                    self.errors@,
                    cs,
                    self.current as nat,
                    self.line as nat,
                ) =~= scan_accum(old(self).tokens@, old(self).errors@, cs, cur0, line0));
            }
        } else {
            self.current = self.current + 2;
            proof {
                assert(lex_from(cs, cur0, line0) == lex_from(cs, cur0 + 2 + k + 2, line2));
            }
        }
    }

    fn string_literal(&mut self, Ghost(cur0): Ghost<nat>, Ghost(line0): Ghost<nat>)
        requires
            old(self).current as nat == cur0,
            old(self).line as nat == line0,
            old(self).start == old(self).current,
            cur0 < old(self).source@.len(),
            single(cluster_views(old(self).source@)[cur0 as int], '"'),
            !is_ws_cluster(cluster_views(old(self).source@)[cur0 as int]),
            (simple_token_type(cluster_views(old(self).source@)[cur0 as int]) is None),
            (two_char_start(cluster_views(old(self).source@)[cur0 as int]) is None),
            !single(cluster_views(old(self).source@)[cur0 as int], '/'),
        ensures
            final(self).source@ == old(self).source@,
            final(self).current > old(self).current,
            final(self).current <= final(self).source@.len(),
            scan_accum(
                final(self).tokens@,
                final(self).errors@,
                cluster_views(final(self).source@),
                final(self).current as nat,
                final(self).line as nat,
            ) =~= scan_accum(
                old(self).tokens@,
                old(self).errors@,
                cluster_views(final(self).source@),
                cur0,
                line0,
            ),
    {
        let ghost cs = cluster_views(self.source@);
        let src_len = self.source.len();
        proof {
            assert(self.current + 1 <= src_len);
        }
        self.current = self.current + 1;
        let ghost s2 = self.current as nat;
        loop
            invariant
                self.source@ == old(self).source@,
                cs == cluster_views(self.source@),
                s2 == cur0 + 1,
                s2 <= self.current as nat <= self.source@.len(),
                self.start == old(self).start,
                self.tokens@ == old(self).tokens@,
                self.errors@ == old(self).errors@,
                str_body_len(cs, s2) == self.current as nat - s2 + str_body_len(
                    cs,
                    self.current as nat,
                ),
                self.line as nat == advance_lines(line0, cs, s2, (self.current as nat - s2) as nat),
            ensures
                self.source@ == old(self).source@,
                cs == cluster_views(self.source@),
                s2 <= self.current as nat <= self.source@.len(),
                self.start == old(self).start,
                self.tokens@ == old(self).tokens@,
                self.errors@ == old(self).errors@,
                self.current as nat == s2 + str_body_len(cs, s2),
                self.line as nat == advance_lines(line0, cs, s2, str_body_len(cs, s2)),
            decreases self.source@.len() - self.current,
        {
            if self.current >= self.source.len() {
                proof {
                    assert(str_body_len(cs, self.current as nat) == 0);
                }
                break ;
            }
            proof {
                assert(cs[self.current as int] == self.source@[self.current as int]@);
            }
            let quote = is1(&self.source[self.current], '"');
            if quote {
                proof {
                    assert(str_body_len(cs, self.current as nat) == 0);
                }
                break ;
            }
            if is1(&self.source[self.current], '\n') {
                if self.line < usize::MAX {
                    self.line = self.line + 1;
                }
            }
            self.current = self.current + 1;
            proof {
                assert(advance_lines(line0, cs, s2, (self.current as nat - s2) as nat) == bump(
                    advance_lines(line0, cs, s2, (self.current as nat - 1 - s2) as nat),
                    cs[self.current as int - 1],
                ));
            }
        }
        let ghost k = str_body_len(cs, s2);
        let ghost line2 = advance_lines(line0, cs, s2, k);
        if self.current >= self.source.len() {
            // Unterminated string: a scan error, no token.
            let line = self.line;
            self.errors.push(ScanError { kind: ScanErrorKind::UnterminatedString, line });
            proof {
                let ev = ScanErrorV { kind: ScanErrorKindV::UnterminatedString, line: line2 };
                assert(lex_from(cs, cur0, line0) == with_error(
                    ev,
                    lex_from(cs, cur0 + 1 + k, line2),
                ));
                assert(self.errors@.last()@ == ev);
                assert(error_views(self.errors@) =~= error_views(old(self).errors@).push(ev));
                assert(scan_accum(
                    self.tokens@,
                    self.errors@,
                    cs,
                    self.current as nat,
                    self.line as nat,
                ) =~= scan_accum(old(self).tokens@, old(self).errors@, cs, cur0, line0));
            }
        } else {
            // Consume the closing quote; the literal is the body without the
            // quotes, the lexeme includes them.
            let content_chars = take_slice(&self.source, self.start + 1, self.current);
            let content = string_of_chars(&content_chars);
            let lexeme_chars = take_slice(&self.source, self.start, self.current + 1);
            let lexeme = string_of_chars(&lexeme_chars);
            let line = self.line;
            let t = Token::new(TokenType::STRING(content), lexeme, line);
            self.tokens.push(t);
            self.current = self.current + 1;
            proof {
                let tv = TokenV {
                    typ: TokenTypeV::STRING(join_clusters(cs, s2 as int, k as int)),
                    lexeme: join_clusters(cs, cur0 as int, k as int + 2),
                    line: line2,
                };
                assert(lex_from(cs, cur0, line0) == with_token(
                    tv,
                    lex_from(cs, cur0 + 1 + k + 1, line2),
                ));
                assert(t@ == tv);
                assert(token_views(self.tokens@) =~= token_views(old(self).tokens@).push(tv));
                assert(scan_accum(
                    self.tokens@,
                    self.errors@,
                    cs,
                    self.current as nat,
                    self.line as nat,
                ) =~= scan_accum(old(self).tokens@, old(self).errors@, cs, cur0, line0));
            }
        }
    }

    fn number(&mut self, Ghost(cur0): Ghost<nat>, Ghost(line0): Ghost<nat>)
        requires
            old(self).current as nat == cur0,
            old(self).line as nat == line0,
            old(self).start == old(self).current,
            cur0 < old(self).source@.len(),
            digit_cluster(cluster_views(old(self).source@)[cur0 as int]),
            !is_ws_cluster(cluster_views(old(self).source@)[cur0 as int]),
            (simple_token_type(cluster_views(old(self).source@)[cur0 as int]) is None),
            (two_char_start(cluster_views(old(self).source@)[cur0 as int]) is None),
            !single(cluster_views(old(self).source@)[cur0 as int], '/'),
            !single(cluster_views(old(self).source@)[cur0 as int], '"'),
        ensures
            final(self).source@ == old(self).source@,
            final(self).current > old(self).current,
            final(self).current <= final(self).source@.len(),
            scan_accum(
                final(self).tokens@,
                final(self).errors@,
                cluster_views(final(self).source@),
                final(self).current as nat,
                final(self).line as nat,
            ) =~= scan_accum(
                old(self).tokens@,
                old(self).errors@,
                cluster_views(final(self).source@),
                cur0,
                line0,
            ),
    {
        let ghost cs = cluster_views(self.source@);
        self.digit_run(Ghost(cur0));
        let ghost d1 = digits_len(cs, cur0);
        // A fractional part only when the dot is followed by another digit: a
        // trailing dot is left for the next token.
        proof {
            if self.current < self.source@.len() {
                assert(cs[self.current as int] == self.source@[self.current as int]@);
            }
            if self.current as nat + 1 < cs.len() {
                assert(cs[self.current as int + 1] == self.source@[self.current as int + 1]@);
            }
        }
        let has_frac = self.current < self.source.len() && is1(&self.source[self.current], '.')
            && self.current + 1 < self.source.len() && vec_is_digit(
            &self.source[self.current + 1],
        );
        if has_frac {
            self.current = self.current + 1;
            let ghost s3 = self.current as nat;
            self.digit_run(Ghost(s3));
            proof {
                assert(number_len(cs, cur0) == d1 + 1 + digits_len(cs, s3));
                assert(self.current as nat == cur0 + number_len(cs, cur0));
            }
        } else {
            proof {
                assert(number_len(cs, cur0) == d1);
            }
        }
        let ghost n = number_len(cs, cur0);
        let lexeme_chars = take_slice(&self.source, self.start, self.current);
        let bits = num_from_lexeme(&lexeme_chars);
        let lexeme = string_of_chars(&lexeme_chars);
        let line = self.line;
        let t = Token::new(TokenType::NUMBER(bits), lexeme, line);
        self.tokens.push(t);
        proof {
            let tv = TokenV {
                typ: TokenTypeV::NUMBER(number_of_lexeme(join_clusters(cs, cur0 as int, n as int))),
                lexeme: join_clusters(cs, cur0 as int, n as int),
                line: line0,
            };
            assert(lex_from(cs, cur0, line0) == with_token(tv, lex_from(cs, cur0 + n, line0)));
            assert(t@ == tv);
            assert(token_views(self.tokens@) =~= token_views(old(self).tokens@).push(tv));
            assert(scan_accum(self.tokens@, self.errors@, cs, self.current as nat, self.line as nat)
                =~= scan_accum(old(self).tokens@, old(self).errors@, cs, cur0, line0));
        }
    }

    /// Consumes the maximal run of digit clusters from the current position.
    fn digit_run(&mut self, Ghost(from): Ghost<nat>)
        requires
            old(self).current as nat == from,
            old(self).current <= old(self).source@.len(),
        ensures
            final(self).source@ == old(self).source@,
            final(self).start == old(self).start,
            final(self).line == old(self).line,
            final(self).tokens@ == old(self).tokens@,
            final(self).errors@ == old(self).errors@,
            final(self).current as nat == from + digits_len(cluster_views(final(self).source@), from),
            final(self).current <= final(self).source@.len(),
    {
        let ghost cs = cluster_views(self.source@);
        loop
            invariant
                self.source@ == old(self).source@,
                cs == cluster_views(self.source@),
                from <= self.current as nat <= self.source@.len(),
                self.start == old(self).start,
                self.line == old(self).line,
                self.tokens@ == old(self).tokens@,
                self.errors@ == old(self).errors@,
                digits_len(cs, from) == self.current as nat - from + digits_len(
                    cs,
                    self.current as nat,
                ),
            ensures
                self.source@ == old(self).source@,
                self.start == old(self).start,
                self.line == old(self).line,
                self.tokens@ == old(self).tokens@,
                self.errors@ == old(self).errors@,
                self.current as nat == from + digits_len(cs, from),
                self.current <= self.source@.len(),
            decreases self.source@.len() - self.current,
        {
            if self.current >= self.source.len() {
                proof {
                    assert(digits_len(cs, self.current as nat) == 0);
                }
                break ;
            }
            proof {
                assert(cs[self.current as int] == self.source@[self.current as int]@);
            }
            let d = vec_is_digit(&self.source[self.current]);
            if !d {
                proof {
                    assert(digits_len(cs, self.current as nat) == 0);
                }
                break ;
            }
            self.current = self.current + 1;
        }
    }

    fn identifier(&mut self, Ghost(cur0): Ghost<nat>, Ghost(line0): Ghost<nat>)
        requires
            old(self).current as nat == cur0,
            old(self).line as nat == line0,
            old(self).start == old(self).current,
            cur0 < old(self).source@.len(),
            alpha_cluster(cluster_views(old(self).source@)[cur0 as int]),
            !digit_cluster(cluster_views(old(self).source@)[cur0 as int]),
            !is_ws_cluster(cluster_views(old(self).source@)[cur0 as int]),
            (simple_token_type(cluster_views(old(self).source@)[cur0 as int]) is None),
            (two_char_start(cluster_views(old(self).source@)[cur0 as int]) is None),
            !single(cluster_views(old(self).source@)[cur0 as int], '/'),
            !single(cluster_views(old(self).source@)[cur0 as int], '"'),
        ensures
            final(self).source@ == old(self).source@,
            final(self).current > old(self).current,
            final(self).current <= final(self).source@.len(),
            scan_accum(
                final(self).tokens@,
                final(self).errors@,
                cluster_views(final(self).source@),
                final(self).current as nat,
                final(self).line as nat,
            ) =~= scan_accum(
                old(self).tokens@,
                old(self).errors@,
                cluster_views(final(self).source@),
                cur0,
                line0,
            ),
    {
        let ghost cs = cluster_views(self.source@);
        let src_len = self.source.len();
        proof {
            assert(self.current + 1 <= src_len);
        }
        self.current = self.current + 1;
        let ghost s2 = self.current as nat;
        loop
            invariant
                self.source@ == old(self).source@,
                cs == cluster_views(self.source@),
                s2 == cur0 + 1,
                s2 <= self.current as nat <= self.source@.len(),
                self.start == old(self).start,
                self.line == old(self).line,
                self.tokens@ == old(self).tokens@,
                self.errors@ == old(self).errors@,
                alnum_len(cs, s2) == self.current as nat - s2 + alnum_len(cs, self.current as nat),
            ensures
                self.source@ == old(self).source@,
                cs == cluster_views(self.source@),
                s2 == cur0 + 1,
                s2 <= self.current as nat <= self.source@.len(),
                self.start == old(self).start,
                self.line == old(self).line,
                self.tokens@ == old(self).tokens@,
                self.errors@ == old(self).errors@,
                self.current as nat == s2 + alnum_len(cs, s2),
            decreases self.source@.len() - self.current,
        {
            if self.current >= self.source.len() {
                proof {
                    assert(alnum_len(cs, self.current as nat) == 0);
                }
                break ;
            }
            proof {
                assert(cs[self.current as int] == self.source@[self.current as int]@);
            }
            let a = vec_is_alnum(&self.source[self.current]);
            if !a {
                proof {
                    assert(alnum_len(cs, self.current as nat) == 0);
                }
                break ;
            }
            self.current = self.current + 1;
        }
        let ghost n = (1 + alnum_len(cs, s2)) as nat;
        let lexeme_chars = take_slice(&self.source, self.start, self.current);
        let typ = keyword_type(&lexeme_chars);
        let lexeme = string_of_chars(&lexeme_chars);
        let line = self.line;
        let t = Token::new(typ, lexeme, line);
        self.tokens.push(t);
        proof {
            let lx = join_clusters(cs, cur0 as int, n as int);
            let tv = TokenV { typ: keyword_or_identifier(lx), lexeme: lx, line: line0 };
            assert(lex_from(cs, cur0, line0) == with_token(tv, lex_from(cs, cur0 + n, line0)));
            assert(t@ == tv);
            assert(token_views(self.tokens@) =~= token_views(old(self).tokens@).push(tv));
            assert(scan_accum(self.tokens@, self.errors@, cs, self.current as nat, self.line as nat)
                =~= scan_accum(old(self).tokens@, old(self).errors@, cs, cur0, line0));
        }
    }
}

/// Whether the cluster is exactly the one given character.
fn is1(c: &Vec<char>, ch: char) -> (r: bool)
    ensures
        r == single(c@, ch),
{
    c.len() == 1 && c[0] == ch
}

/// Whether the cluster is whitespace.
fn is_ws_vec(c: &Vec<char>) -> (r: bool)
    ensures
        r == is_ws_cluster(c@),
{
    is1(c, ' ') || is1(c, '\t') || is1(c, '\r') || is1(c, '\n')
}

/// The token kind of a cluster that alone makes a token, if any.
fn simple_token_exec(c: &Vec<char>) -> (r: Option<TokenType>)
    ensures
        (match r {
            Some(t) => simple_token_type(c@) == Some(t@),
            None => simple_token_type(c@) is None,
        }),
{
    if is1(c, '(') {
        Some(TokenType::LEFT_PAREN)
    } else if is1(c, ')') {
        Some(TokenType::RIGHT_PAREN)
    } else if is1(c, '{') {
        Some(TokenType::LEFT_BRACE)
    } else if is1(c, '}') {
        Some(TokenType::RIGHT_BRACE)
    } else if is1(c, ',') {
        Some(TokenType::COMMA)
    } else if is1(c, '.') {
        Some(TokenType::DOT)
    } else if is1(c, '-') {
        Some(TokenType::MINUS)
    } else if is1(c, '+') {
        Some(TokenType::PLUS)
    } else if is1(c, ';') {
        Some(TokenType::SEMICOLON)
    } else if is1(c, '*') {
        Some(TokenType::STAR)
    } else {
        None
    }
}

/// The two candidate kinds of a maximal-munch pair starter, if any.
fn two_char_exec(c: &Vec<char>) -> (r: Option<(TokenType, TokenType)>)
    ensures
        (match r {
            Some(pair) => two_char_start(c@) == Some((pair.0@, pair.1@)),
            None => two_char_start(c@) is None,
        }),
{
    if is1(c, '!') {
        Some((TokenType::BANG_EQUAL, TokenType::BANG))
    } else if is1(c, '=') {
        Some((TokenType::EQUAL_EQUAL, TokenType::EQUAL))
    } else if is1(c, '<') {
        Some((TokenType::LESS_EQUAL, TokenType::LESS))
    } else if is1(c, '>') {
        Some((TokenType::GREATER_EQUAL, TokenType::GREATER))
    } else {
        None
    }
}

/// Looks a lexeme up in the keyword table.
fn keyword_type(lex: &Vec<char>) -> (t: TokenType)
    ensures
        t@ == keyword_or_identifier(lex@),
{
    if vec_eq_str(lex, "and") {
        TokenType::AND
    } else if vec_eq_str(lex, "class") {
        TokenType::CLASS
    } else if vec_eq_str(lex, "else") {
        TokenType::ELSE
    } else if vec_eq_str(lex, "false") {
        TokenType::FALSE
    } else if vec_eq_str(lex, "for") {
        TokenType::FOR
    } else if vec_eq_str(lex, "fun") {
        TokenType::FUN
    } else if vec_eq_str(lex, "if") {
        TokenType::IF
    } else if vec_eq_str(lex, "nil") {
        TokenType::NIL
    } else if vec_eq_str(lex, "or") {
        TokenType::OR
    } else if vec_eq_str(lex, "print") {
        TokenType::PRINT
    } else if vec_eq_str(lex, "return") {
        TokenType::RETURN
    } else if vec_eq_str(lex, "super") {
        TokenType::SUPER
    } else if vec_eq_str(lex, "this") {
        TokenType::THIS
    } else if vec_eq_str(lex, "true") {
        TokenType::TRUE
    } else if vec_eq_str(lex, "var") {
        TokenType::VAR
    } else if vec_eq_str(lex, "while") {
        TokenType::WHILE
    } else {
        TokenType::IDENTIFIER
    }
}


/// Maximal munch: wherever a `!` cluster is followed by an `=` cluster, the
/// scan emits one `BANG_EQUAL` token spanning both clusters and goes on
/// after them — never a `BANG` token and then an `EQUAL` token.
pub proof fn lemma_maximal_munch_bang_equal(cs: Seq<Seq<char>>, i: nat, line: nat)
    requires
        i + 1 < cs.len(),
        single(cs[i as int], '!'),
        single(cs[i as int + 1], '='),
    ensures
        lex_from(cs, i, line) == with_token(
            span_token(TokenTypeV::BANG_EQUAL, cs, i, 2, line),
            lex_from(cs, i + 2, line),
        ),
{
}

/// A cluster inside a string literal that is not the quote cluster counts as
/// ordinary content, whatever characters it holds: it extends the body by
/// one cluster and never terminates the literal.
pub proof fn lemma_string_content_cluster(cs: Seq<Seq<char>>, i: nat)
    requires
        i < cs.len(),
        !single(cs[i as int], '"'),
    ensures
        str_body_len(cs, i) == 1 + str_body_len(cs, i + 1),
{
}

/// A terminated string literal lexes to one `STRING` token: its payload is
/// the joined characters of every cluster between the quotes, its lexeme
/// includes the quotes, and its line accounts for embedded newlines.
pub proof fn lemma_string_token_content(cs: Seq<Seq<char>>, i: nat, line: nat)
    requires
        i < cs.len(),
        single(cs[i as int], '"'),
        i + 1 + str_body_len(cs, i + 1) < cs.len(),
    ensures
        ({
            let k = str_body_len(cs, i + 1);
            lex_from(cs, i, line).tokens[0] == (TokenV {
                typ: TokenTypeV::STRING(join_clusters(cs, i as int + 1, k as int)),
                lexeme: join_clusters(cs, i as int, k as int + 2),
                line: advance_lines(line, cs, i + 1, k),
            })
        }),
{
}


/// A line comment emits no token and no error: wherever `//` stands, the
/// scan continues at the next newline (which the comment does not consume),
/// on the same line.
pub proof fn lemma_line_comment_emits_nothing(cs: Seq<Seq<char>>, i: nat, line: nat)
    requires
        i + 1 < cs.len(),
        single(cs[i as int], '/'),
        single(cs[i as int + 1], '/'),
    ensures
        lex_from(cs, i, line) == lex_from(cs, i + 2 + line_comment_len(cs, i + 2), line),
{
}

/// A terminated block comment emits no token and no error: the scan
/// continues after the closing delimiter, with every newline of the body
/// counted into the line number.
pub proof fn lemma_block_comment_emits_nothing(cs: Seq<Seq<char>>, i: nat, line: nat)
    requires
        i + 1 < cs.len(),
        single(cs[i as int], '/'),
        single(cs[i as int + 1], '*'),
        i + 2 + block_comment_len(cs, i + 2) < cs.len(),
    ensures
        ({
            let k = block_comment_len(cs, i + 2);
            lex_from(cs, i, line) == lex_from(cs, i + 2 + k + 2, advance_lines(line, cs, i + 2, k))
        }),
{
}

} // verus!
