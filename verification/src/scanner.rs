//! The scanner: source characters to tokens, by maximal munch, with
//! keyword lookup and line tracking.
//!
//! As with the parser, the scan is first written down as a functional
//! model over the character sequence, and the executable scanner is
//! proved to compute exactly that model. Number literals are converted
//! to double bits by the trusted decimal parser in `numbers`; every
//! other step is verified.

use vstd::prelude::*;

use crate::error::{DiagModel, ErrorHandler, HandlerModel};
use crate::numbers::{num_parse, spec_is_digit, spec_num_parse};
use crate::parser::pos_max;
use crate::token::{LitModel, Literal, Token, TokenKind, TokenModel};

verus! {

/// Whether the character is an ASCII letter.
pub open spec fn spec_is_alpha(c: char) -> bool {
    ('a' <= c <= 'z') || ('A' <= c <= 'Z')
}

/// Whether the character is an ASCII letter or digit.
pub open spec fn spec_is_alnum(c: char) -> bool {
    spec_is_alpha(c) || spec_is_digit(c)
}

/// The character at `pos`, or NUL past either end.
pub open spec fn sc_at(src: Seq<char>, pos: int) -> char {
    if 0 <= pos < src.len() {
        src[pos]
    } else {
        '\0'
    }
}

/// The next line number; line counting sticks at the largest
/// representable line rather than wrapping.
pub open spec fn bump_line(line: u32) -> u32 {
    if line < u32::MAX {
        (line + 1) as u32
    } else {
        line
    }
}

/// The keyword kind of a lexeme, if it is a reserved word.
pub open spec fn spec_keyword(lex: Seq<char>) -> Option<TokenKind> {
    if lex == "and"@ {
        Some(TokenKind::And)
    } else if lex == "class"@ {
        Some(TokenKind::Class)
    } else if lex == "else"@ {
        Some(TokenKind::Else)
    } else if lex == "false"@ {
        Some(TokenKind::False)
    } else if lex == "for"@ {
        Some(TokenKind::For)
    } else if lex == "fun"@ {
        Some(TokenKind::Fun)
    } else if lex == "if"@ {
        Some(TokenKind::If)
    } else if lex == "nil"@ {
        Some(TokenKind::Nil)
    } else if lex == "or"@ {
        Some(TokenKind::Or)
    } else if lex == "print"@ {
        Some(TokenKind::Print)
    } else if lex == "return"@ {
        Some(TokenKind::Return)
    } else if lex == "super"@ {
        Some(TokenKind::Super)
    } else if lex == "this"@ {
        Some(TokenKind::This)
    } else if lex == "true"@ {
        Some(TokenKind::True)
    } else if lex == "var"@ {
        Some(TokenKind::Var)
    } else if lex == "while"@ {
        Some(TokenKind::While)
    } else {
        None
    }
}

/// A token whose lexeme is the source slice `start..end`.
pub open spec fn slice_token(
    src: Seq<char>,
    start: int,
    end: int,
    kind: TokenKind,
    literal: Option<LitModel>,
    line: u32,
) -> TokenModel {
    TokenModel { kind, lexeme: src.subrange(start, end), literal, line }
}

/// The position just past a run of digits.
pub open spec fn sem_digits_end(src: Seq<char>, pos: int) -> int
    decreases rem_chars(src, pos),
{
    if 0 <= pos < src.len() && spec_is_digit(src[pos]) {
        sem_digits_end(src, pos + 1)
    } else {
        pos
    }
}

/// The position just past a run of letters and digits.
pub open spec fn sem_ident_end(src: Seq<char>, pos: int) -> int
    decreases rem_chars(src, pos),
{
    if 0 <= pos < src.len() && spec_is_alnum(src[pos]) {
        sem_ident_end(src, pos + 1)
    } else {
        pos
    }
}

/// The position of the newline that ends a line comment, or the end
/// of input.
pub open spec fn sem_comment_end(src: Seq<char>, pos: int) -> int
    decreases rem_chars(src, pos),
{
    if 0 <= pos < src.len() && src[pos] != '\n' {
        sem_comment_end(src, pos + 1)
    } else {
        pos
    }
}

/// The characters left from `pos` on.
pub open spec fn rem_chars(src: Seq<char>, pos: int) -> int {
    pos_max(src.len() - pos, 0)
}

/// Scan forward for the closing quote of a string literal: whether it
/// was found, the position just past it (or the end of input), and
/// the line number after the newlines crossed.
pub open spec fn sem_string_end(src: Seq<char>, pos: int, line: u32) -> (bool, int, u32)
    decreases rem_chars(src, pos),
{
    if !(0 <= pos < src.len()) {
        (false, if pos >= src.len() {
            src.len() as int
        } else {
            pos
        }, line)
    } else if src[pos] == '"' {
        (true, pos + 1, line)
    } else {
        sem_string_end(src, pos + 1, if src[pos] == '\n' {
            bump_line(line)
        } else {
            line
        })
    }
}

/// A digit run never moves backward.
pub proof fn lemma_digits_end_monotone(src: Seq<char>, pos: int)
    ensures
        sem_digits_end(src, pos) >= pos,
    decreases rem_chars(src, pos),
{
    if 0 <= pos < src.len() && spec_is_digit(src[pos]) {
        lemma_digits_end_monotone(src, pos + 1);
    }
}

/// An identifier run never moves backward.
pub proof fn lemma_ident_end_monotone(src: Seq<char>, pos: int)
    ensures
        sem_ident_end(src, pos) >= pos,
    decreases rem_chars(src, pos),
{
    if 0 <= pos < src.len() && spec_is_alnum(src[pos]) {
        lemma_ident_end_monotone(src, pos + 1);
    }
}

/// A comment scan never moves backward.
pub proof fn lemma_comment_end_monotone(src: Seq<char>, pos: int)
    ensures
        sem_comment_end(src, pos) >= pos,
    decreases rem_chars(src, pos),
{
    if 0 <= pos < src.len() && src[pos] != '\n' {
        lemma_comment_end_monotone(src, pos + 1);
    }
}

/// A string scan never moves backward.
pub proof fn lemma_string_end_monotone(src: Seq<char>, pos: int, line: u32)
    requires
        0 <= pos <= src.len(),
    ensures
        sem_string_end(src, pos, line).1 >= pos,
    decreases rem_chars(src, pos),
{
    if 0 <= pos < src.len() && src[pos] != '"' {
        lemma_string_end_monotone(
            src,
            pos + 1,
            if src[pos] == '\n' {
                bump_line(line)
            } else {
                line
            },
        );
    }
}

/// Scan one token starting at `pos`: the tokens it emits (none for
/// whitespace, comments and errors), the next position, the line
/// after, and the diagnostics sink after.
#[verifier::opaque]
pub open spec fn sem_scan_token(src: Seq<char>, pos: int, line: u32, h: HandlerModel) -> (
    Seq<TokenModel>,
    int,
    u32,
    HandlerModel,
) {
    if !(0 <= pos < src.len()) {
        (Seq::empty(), pos + 1, line, h)
    } else {
        let c = src[pos];
        let p1 = pos + 1;
        if c == '(' {
            (seq![slice_token(src, pos, p1, TokenKind::LeftParen, None, line)], p1, line, h)
        } else if c == ')' {
            (seq![slice_token(src, pos, p1, TokenKind::RightParen, None, line)], p1, line, h)
        } else if c == '{' {
            (seq![slice_token(src, pos, p1, TokenKind::LeftBrace, None, line)], p1, line, h)
        } else if c == '}' {
            (seq![slice_token(src, pos, p1, TokenKind::RightBrace, None, line)], p1, line, h)
        } else if c == ',' {
            (seq![slice_token(src, pos, p1, TokenKind::Comma, None, line)], p1, line, h)
        } else if c == '.' {
            (seq![slice_token(src, pos, p1, TokenKind::Dot, None, line)], p1, line, h)
        } else if c == '-' {
            (seq![slice_token(src, pos, p1, TokenKind::Minus, None, line)], p1, line, h)
        } else if c == '+' {
            (seq![slice_token(src, pos, p1, TokenKind::Plus, None, line)], p1, line, h)
        } else if c == ';' {
            (seq![slice_token(src, pos, p1, TokenKind::Semicolon, None, line)], p1, line, h)
        } else if c == '*' {
            (seq![slice_token(src, pos, p1, TokenKind::Star, None, line)], p1, line, h)
        } else if c == '!' {
            if p1 < src.len() && src[p1] == '=' {
                (seq![slice_token(src, pos, p1 + 1, TokenKind::BangEqual, None, line)], p1 + 1, line, h)
            } else {
                (seq![slice_token(src, pos, p1, TokenKind::Bang, None, line)], p1, line, h)
            }
        } else if c == '=' {
            if p1 < src.len() && src[p1] == '=' {
                (seq![slice_token(src, pos, p1 + 1, TokenKind::EqualEqual, None, line)], p1 + 1, line, h)
            } else {
                (seq![slice_token(src, pos, p1, TokenKind::Equal, None, line)], p1, line, h)
            }
        } else if c == '<' {
            if p1 < src.len() && src[p1] == '=' {
                (seq![slice_token(src, pos, p1 + 1, TokenKind::LessEqual, None, line)], p1 + 1, line, h)
            } else {
                (seq![slice_token(src, pos, p1, TokenKind::Less, None, line)], p1, line, h)
            }
        } else if c == '>' {
            if p1 < src.len() && src[p1] == '=' {
                (seq![slice_token(src, pos, p1 + 1, TokenKind::GreaterEqual, None, line)], p1 + 1, line, h)
            } else {
                (seq![slice_token(src, pos, p1, TokenKind::Greater, None, line)], p1, line, h)
            }
        } else if c == '/' {
            if p1 < src.len() && src[p1] == '/' {
                (Seq::empty(), sem_comment_end(src, p1 + 1), line, h)
            } else {
                (seq![slice_token(src, pos, p1, TokenKind::Slash, None, line)], p1, line, h)
            }
        } else if c == '"' {
            let (found, p2, l2) = sem_string_end(src, p1, line);
            if found {
                (
                    seq![
                        slice_token(
                            src,
                            pos,
                            p2,
                            TokenKind::String,
                            Some(LitModel::Str(src.subrange(pos + 1, p2 - 1))),
                            l2,
                        ),
                    ],
                    p2,
                    l2,
                    h,
                )
            } else {
                (
                    Seq::empty(),
                    p2,
                    l2,
                    HandlerModel {
                        had_error: true,
                        log: h.log.push(
                            DiagModel::Scan { line: l2, message: "Unterminated string."@ },
                        ),
                    },
                )
            }
        } else if c == ' ' || c == '\r' || c == '\t' {
            (Seq::empty(), p1, line, h)
        } else if c == '\n' {
            (Seq::empty(), p1, bump_line(line), h)
        } else if spec_is_digit(c) {
            let ne = sem_digits_end(src, p1);
            let ne2 = if sc_at(src, ne) == '.' && spec_is_digit(sc_at(src, ne + 1)) {
                sem_digits_end(src, ne + 2)
            } else {
                ne
            };
            let lex = src.subrange(pos, ne2);
            match spec_num_parse(lex) {
                Some(bits) => (
                    seq![
                        slice_token(
                            src,
                            pos,
                            ne2,
                            TokenKind::Number,
                            Some(LitModel::Num(bits)),
                            line,
                        ),
                    ],
                    ne2,
                    line,
                    h,
                ),
                None => (
                    Seq::empty(),
                    ne2,
                    line,
                    HandlerModel {
                        had_error: true,
                        log: h.log.push(
                            DiagModel::Scan { line, message: "Invalid number literal"@ },
                        ),
                    },
                ),
            }
        } else if spec_is_alpha(c) {
            let ie = sem_ident_end(src, p1);
            let lex = src.subrange(pos, ie);
            let kind = match spec_keyword(lex) {
                Some(k) => k,
                None => TokenKind::Identifier,
            };
            (seq![slice_token(src, pos, ie, kind, None, line)], ie, line, h)
        } else {
            (
                Seq::empty(),
                p1,
                line,
                HandlerModel {
                    had_error: true,
                    log: h.log.push(
                        DiagModel::Scan { line, message: "Unexpected character"@ },
                    ),
                },
            )
        }
    }
}

/// Scan the whole source from `pos` on: all tokens emitted, ending
/// with an end-of-file token, the final line number, and the
/// diagnostics sink after.
pub open spec fn sem_scan(
    src: Seq<char>,
    pos: int,
    line: u32,
    toks: Seq<TokenModel>,
    h: HandlerModel,
) -> (Seq<TokenModel>, u32, HandlerModel)
    decreases rem_chars(src, pos),
{
    if pos >= src.len() {
        (
            toks.push(
                TokenModel {
                    kind: TokenKind::EndOfFile,
                    lexeme: Seq::empty(),
                    literal: None,
                    line,
                },
            ),
            line,
            h,
        )
    } else {
        let (emitted, p2, l2, h2) = sem_scan_token(src, pos, line, h);
        sem_scan(src, pos_max(pos + 1, p2), l2, toks + emitted, h2)
    }
}

/// Relies on String::push: appends one character.
#[verifier::external_body]
fn push_char(s: &mut String, c: char)
    ensures
        final(s)@ == old(s)@.push(c),
{
    s.push(c);
}

/// The source slice `from..to` as an owned string.
fn chars_to_string(v: &Vec<char>, from: usize, to: usize) -> (r: String)
    requires
        from <= to <= v@.len(),
    ensures
        r@ == v@.subrange(from as int, to as int),
{
    let mut out = String::new();
    let mut i: usize = from;
    proof {
        assert(out@ =~= v@.subrange(from as int, from as int));
    }
    while i < to
        invariant
            from <= i <= to <= v@.len(),
            out@ == v@.subrange(from as int, i as int),
        decreases to - i,
    {
        push_char(&mut out, v[i]);
        proof {
            assert(out@ =~= v@.subrange(from as int, i + 1int));
        }
        i = i + 1;
    }
    out
}

/// Whether the string equals the literal.
fn str_eq(s: &String, lit: &str) -> (r: bool)
    ensures
        r == (s@ == lit@),
{
    let owned = lit.to_owned();
    *s == owned
}

/// The interface scanning errors are reported through.
pub trait ScanningErrorHandler {
    fn callback(&mut self, line: u32, message: &str);
}

/// The scanner: the source as characters, the tokens produced so far,
/// the bounds of the lexeme being scanned, the current line, and the
/// diagnostics sink.
#[derive(Debug)]
pub struct Scanner {
    pub source: Vec<char>,
    pub tokens: Vec<Token>,
    pub start: usize,
    pub current: usize,
    pub line: u32,
    pub error_handler: ErrorHandler,
}

impl Scanner {
    /// The source characters.
    pub open spec fn src(&self) -> Seq<char> {
        self.source@
    }

    /// The scan position.
    pub open spec fn pos(&self) -> int {
        self.current as int
    }

    /// The start of the lexeme being scanned.
    pub open spec fn lex_start(&self) -> int {
        self.start as int
    }

    /// Models of the tokens produced so far.
    pub open spec fn toks(&self) -> Seq<TokenModel> {
        crate::ast::tokens_view(self.tokens@)
    }

    /// Model of the diagnostics sink.
    pub open spec fn hm(&self) -> HandlerModel {
        self.error_handler@
    }

    pub fn new(source: String, error_handler: ErrorHandler) -> (r: Self)
        ensures
            r.src() == source@,
            r.pos() == 0,
            r.toks() == Seq::<TokenModel>::empty(),
            r.line == 1,
            r.hm() == error_handler@,
    {
        let s = source.as_str();
        let n = s.unicode_len();
        let mut chars: Vec<char> = Vec::new();
        let mut i: usize = 0;
        while i < n
            invariant
                0 <= i <= n,
                n == s@.len(),
                s@ == source@,
                chars@ == s@.subrange(0, i as int),
            decreases n - i,
        {
            chars.push(s.get_char(i));
            proof {
                assert(chars@ =~= s@.subrange(0, i + 1int));
            }
            i = i + 1;
        }
        proof {
            assert(chars@ =~= source@);
        }
        let r = Scanner {
            source: chars,
            tokens: Vec::new(),
            start: 0,
            current: 0,
            line: 1,
            error_handler,
        };
        proof {
            assert(r.toks() =~= Seq::<TokenModel>::empty());
        }
        r
    }

    fn is_at_end(&self) -> (r: bool)
        ensures
            r == (self.pos() >= self.src().len()),
    {
        self.current >= self.source.len()
    }

    /// The character at the scan position, or NUL at the end.
    fn peek(&self) -> (r: char)
        ensures
            r == sc_at(self.src(), self.pos()),
    {
        if self.current < self.source.len() {
            self.source[self.current]
        } else {
            '\0'
        }
    }

    /// The character after the scan position, or NUL past the end.
    fn peek_next(&self) -> (r: char)
        ensures
            r == sc_at(self.src(), self.pos() + 1),
    {
        if self.current >= self.source.len() {
            '\0'
        } else if self.current + 1 < self.source.len() {
            self.source[self.current + 1]
        } else {
            '\0'
        }
    }

    /// Consume one character.
    fn advance(&mut self) -> (r: char)
        requires
            old(self).pos() < old(self).src().len(),
        ensures
            *final(self) == (Scanner { current: final(self).current, ..*old(self) }),
            final(self).pos() == old(self).pos() + 1,
            r == old(self).src()[old(self).pos()],
    {
        let n = self.source.len();
        let c = self.source[self.current];
        proof {
            assert(self.current < n);
        }
        self.current = self.current + 1;
        c
    }

    /// Consume the next character if it is the candidate.
    fn advance_if_equal(&mut self, candidate: char) -> (r: bool)
        ensures
            *final(self) == (Scanner { current: final(self).current, ..*old(self) }),
            if old(self).pos() < old(self).src().len() && sc_at(old(self).src(), old(self).pos())
                == candidate {
                r && final(self).pos() == old(self).pos() + 1
            } else {
                !r && final(self).pos() == old(self).pos()
            },
    {
        if self.is_at_end() {
            return false;
        }
        if self.peek() != candidate {
            return false;
        }
        let n = self.source.len();
        proof {
            assert(self.current < n);
        }
        self.current = self.current + 1;
        true
    }

    /// Append a token for the lexeme `start..current`; the end-of-file
    /// token gets an empty lexeme.
    fn add_token(&mut self, kind: TokenKind, literal: Option<Literal>)
        requires
            kind != TokenKind::EndOfFile ==> old(self).lex_start() <= old(self).pos() <= old(
                self,
            ).src().len(),
        ensures
            *final(self) == (Scanner { tokens: final(self).tokens, ..*old(self) }),
            final(self).toks() == old(self).toks().push(
                TokenModel {
                    kind,
                    lexeme: if kind != TokenKind::EndOfFile {
                        old(self).src().subrange(old(self).lex_start(), old(self).pos())
                    } else {
                        Seq::empty()
                    },
                    literal: match literal {
                        Some(l) => Some(l@),
                        None => None,
                    },
                    line: old(self).line,
                },
            ),
    {
        let text: String = if !(kind == TokenKind::EndOfFile) {
            chars_to_string(&self.source, self.start, self.current)
        } else {
            let empty = String::new();
            proof {
                assert(empty@ =~= Seq::<char>::empty());
            }
            empty
        };
        let t = Token::new(kind, text.as_str(), literal, self.line);
        let ghost before = self.tokens@;
        self.tokens.push(t);
        proof {
            assert(self.toks() =~= crate::ast::tokens_view(before).push(t@));
        }
    }

    /// Scan a string literal: the opening quote was consumed and is
    /// where the lexeme starts.
    fn get_string_literal(&mut self)
        requires
            old(self).lex_start() + 1 == old(self).pos(),
            old(self).pos() <= old(self).src().len(),
        ensures
            final(self).source == old(self).source,
            final(self).start == old(self).start,
            ({
                let (found, p2, l2) = sem_string_end(old(self).src(), old(self).pos(), old(self).line);
                &&& final(self).pos() == p2
                &&& final(self).line == l2
                &&& if found {
                    final(self).toks() == old(self).toks().push(
                        TokenModel {
                            kind: TokenKind::String,
                            lexeme: old(self).src().subrange(old(self).lex_start(), p2),
                            literal: Some(
                                LitModel::Str(
                                    old(self).src().subrange(old(self).lex_start() + 1, p2 - 1),
                                ),
                            ),
                            line: l2,
                        },
                    ) && final(self).hm() == old(self).hm()
                } else {
                    final(self).toks() == old(self).toks() && final(self).hm() == (HandlerModel {
                        had_error: true,
                        log: old(self).hm().log.push(
                            DiagModel::Scan { line: l2, message: "Unterminated string."@ },
                        ),
                    })
                }
            }),
    {
        while !self.is_at_end() && self.peek() != '"'
            invariant
                self.source == old(self).source,
                self.start == old(self).start,
                self.tokens == old(self).tokens,
                self.error_handler == old(self).error_handler,
                old(self).pos() <= self.pos() <= self.src().len(),
                sem_string_end(old(self).src(), old(self).pos(), old(self).line)
                    == sem_string_end(self.src(), self.pos(), self.line),
            decreases rem_chars(self.src(), self.pos()),
        {
            if self.peek() == '\n' {
                if self.line < u32::MAX {
                    self.line = self.line + 1;
                }
            }
            let _ = self.advance();
        }
        if self.is_at_end() {
            let line = self.line;
            self.error_handler.scanning_error(line, "Unterminated string.");
            return;
        }
        let _ = self.advance();
        let lit = chars_to_string(&self.source, self.start + 1, self.current - 1);
        self.add_token(TokenKind::String, Some(Literal::String(lit)));
    }

    /// Scan the rest of a number literal: the first digit was consumed
    /// and is where the lexeme starts.
    fn get_number_literal(&mut self)
        requires
            old(self).lex_start() < old(self).pos() <= old(self).src().len(),
        ensures
            final(self).source == old(self).source,
            final(self).start == old(self).start,
            final(self).line == old(self).line,
            ({
                let src = old(self).src();
                let ne = sem_digits_end(src, old(self).pos());
                let ne2 = if sc_at(src, ne) == '.' && spec_is_digit(sc_at(src, ne + 1)) {
                    sem_digits_end(src, ne + 2)
                } else {
                    ne
                };
                let lex = src.subrange(old(self).lex_start(), ne2);
                &&& final(self).pos() == ne2
                &&& match spec_num_parse(lex) {
                    Some(bits) => final(self).toks() == old(self).toks().push(
                        TokenModel {
                            kind: TokenKind::Number,
                            lexeme: lex,
                            literal: Some(LitModel::Num(bits)),
                            line: old(self).line,
                        },
                    ) && final(self).hm() == old(self).hm(),
                    None => final(self).toks() == old(self).toks() && final(self).hm() == (
                    HandlerModel {
                        had_error: true,
                        log: old(self).hm().log.push(
                            DiagModel::Scan {
                                line: old(self).line,
                                message: "Invalid number literal"@,
                            },
                        ),
                    }),
                }
            }),
    {
        while is_digit_char(self.peek())
            invariant
                self.source == old(self).source,
                self.start == old(self).start,
                self.line == old(self).line,
                self.tokens == old(self).tokens,
                self.error_handler == old(self).error_handler,
                old(self).pos() <= self.pos() <= self.src().len(),
                sem_digits_end(old(self).src(), old(self).pos()) == sem_digits_end(
                    self.src(),
                    self.pos(),
                ),
            decreases rem_chars(self.src(), self.pos()),
        {
            let _ = self.advance();
        }
        if self.peek() == '.' && is_digit_char(self.peek_next()) {
            let _ = self.advance();
            let ghost mid = self.pos();
            while is_digit_char(self.peek())
                invariant
                    self.source == old(self).source,
                    self.start == old(self).start,
                    self.line == old(self).line,
                    self.tokens == old(self).tokens,
                    self.error_handler == old(self).error_handler,
                    mid <= self.pos() <= self.src().len(),
                    sem_digits_end(self.src(), mid) == sem_digits_end(self.src(), self.pos()),
                decreases rem_chars(self.src(), self.pos()),
            {
                let _ = self.advance();
            }
        }
        let lex = chars_to_string(&self.source, self.start, self.current);
        match num_parse(lex.as_str()) {
            Some(bits) => {
                self.add_token(TokenKind::Number, Some(Literal::Number(bits)));
            },
            None => {
                let line = self.line;
                self.error_handler.scanning_error(line, "Invalid number literal");
            },
        }
    }

    /// Scan the rest of an identifier or keyword: the first letter was
    /// consumed and is where the lexeme starts.
    fn get_identifier(&mut self)
        requires
            old(self).lex_start() < old(self).pos() <= old(self).src().len(),
        ensures
            final(self).source == old(self).source,
            final(self).start == old(self).start,
            final(self).line == old(self).line,
            final(self).hm() == old(self).hm(),
            ({
                let src = old(self).src();
                let ie = sem_ident_end(src, old(self).pos());
                let lex = src.subrange(old(self).lex_start(), ie);
                &&& final(self).pos() == ie
                &&& final(self).toks() == old(self).toks().push(
                    TokenModel {
                        kind: match spec_keyword(lex) {
                            Some(k) => k,
                            None => TokenKind::Identifier,
                        },
                        lexeme: lex,
                        literal: None,
                        line: old(self).line,
                    },
                )
            }),
    {
        while is_alnum_char(self.peek())
            invariant
                self.source == old(self).source,
                self.start == old(self).start,
                self.line == old(self).line,
                self.tokens == old(self).tokens,
                self.error_handler == old(self).error_handler,
                old(self).pos() <= self.pos() <= self.src().len(),
                sem_ident_end(old(self).src(), old(self).pos()) == sem_ident_end(
                    self.src(),
                    self.pos(),
                ),
            decreases rem_chars(self.src(), self.pos()),
        {
            let _ = self.advance();
        }
        let text = chars_to_string(&self.source, self.start, self.current);
        let kind = self.get_keyword_token_kind(&text);
        match kind {
            Some(k) => {
                self.add_token(k, None);
            },
            None => {
                self.add_token(TokenKind::Identifier, None);
            },
        }
    }

    /// The keyword kind of a lexeme, if it is a reserved word.
    fn get_keyword_token_kind(&self, key: &String) -> (r: Option<TokenKind>)
        ensures
            r == spec_keyword(key@),
    {
        if str_eq(key, "and") {
            Some(TokenKind::And)
        } else if str_eq(key, "class") {
            Some(TokenKind::Class)
        } else if str_eq(key, "else") {
            Some(TokenKind::Else)
        } else if str_eq(key, "false") {
            Some(TokenKind::False)
        } else if str_eq(key, "for") {
            Some(TokenKind::For)
        } else if str_eq(key, "fun") {
            Some(TokenKind::Fun)
        } else if str_eq(key, "if") {
            Some(TokenKind::If)
        } else if str_eq(key, "nil") {
            Some(TokenKind::Nil)
        } else if str_eq(key, "or") {
            Some(TokenKind::Or)
        } else if str_eq(key, "print") {
            Some(TokenKind::Print)
        } else if str_eq(key, "return") {
            Some(TokenKind::Return)
        } else if str_eq(key, "super") {
            Some(TokenKind::Super)
        } else if str_eq(key, "this") {
            Some(TokenKind::This)
        } else if str_eq(key, "true") {
            Some(TokenKind::True)
        } else if str_eq(key, "var") {
            Some(TokenKind::Var)
        } else if str_eq(key, "while") {
            Some(TokenKind::While)
        } else {
            None
        }
    }

    /// Scan one token from the start of the current lexeme.
    #[verifier::rlimit(100)]
    fn scan_single_token(&mut self)
        requires
            old(self).lex_start() == old(self).pos(),
            old(self).pos() < old(self).src().len(),
        ensures
            final(self).source == old(self).source,
            old(self).pos() < final(self).pos(),
            ({
                let (emitted, p2, l2, h2) = sem_scan_token(
                    old(self).src(),
                    old(self).pos(),
                    old(self).line,
                    old(self).hm(),
                );
                &&& final(self).toks() == old(self).toks() + emitted
                &&& final(self).pos() == p2
                &&& final(self).line == l2
                &&& final(self).hm() == h2
            }),
    {
        proof {
            reveal(sem_scan_token);
            assert(old(self).toks() + Seq::<TokenModel>::empty() =~= old(self).toks());
            lemma_digits_end_monotone(old(self).src(), old(self).pos() + 1);
            let ne = sem_digits_end(old(self).src(), old(self).pos() + 1);
            lemma_digits_end_monotone(old(self).src(), ne + 2);
            lemma_ident_end_monotone(old(self).src(), old(self).pos() + 1);
            lemma_comment_end_monotone(old(self).src(), old(self).pos() + 2);
            lemma_string_end_monotone(old(self).src(), old(self).pos() + 1, old(self).line);
        }
        let c = self.advance();
        if c == '(' {
            self.add_token(TokenKind::LeftParen, None);
        } else if c == ')' {
            self.add_token(TokenKind::RightParen, None);
        } else if c == '{' {
            self.add_token(TokenKind::LeftBrace, None);
        } else if c == '}' {
            self.add_token(TokenKind::RightBrace, None);
        } else if c == ',' {
            self.add_token(TokenKind::Comma, None);
        } else if c == '.' {
            self.add_token(TokenKind::Dot, None);
        } else if c == '-' {
            self.add_token(TokenKind::Minus, None);
        } else if c == '+' {
            self.add_token(TokenKind::Plus, None);
        } else if c == ';' {
            self.add_token(TokenKind::Semicolon, None);
        } else if c == '*' {
            self.add_token(TokenKind::Star, None);
        } else if c == '!' {
            if self.advance_if_equal('=') {
                self.add_token(TokenKind::BangEqual, None);
            } else {
                self.add_token(TokenKind::Bang, None);
            }
        } else if c == '=' {
            if self.advance_if_equal('=') {
                self.add_token(TokenKind::EqualEqual, None);
            } else {
                self.add_token(TokenKind::Equal, None);
            }
        } else if c == '<' {
            if self.advance_if_equal('=') {
                self.add_token(TokenKind::LessEqual, None);
            } else {
                self.add_token(TokenKind::Less, None);
            }
        } else if c == '>' {
            if self.advance_if_equal('=') {
                self.add_token(TokenKind::GreaterEqual, None);
            } else {
                self.add_token(TokenKind::Greater, None);
            }
        } else if c == '/' {
            if self.advance_if_equal('/') {
                while self.peek() != '\n' && !self.is_at_end()
                    invariant
                        self.source == old(self).source,
                        self.start == old(self).start,
                        self.line == old(self).line,
                        self.tokens == old(self).tokens,
                        self.error_handler == old(self).error_handler,
                        old(self).pos() < self.pos() <= self.src().len(),
                        sem_comment_end(old(self).src(), old(self).pos() + 2) == sem_comment_end(
                            self.src(),
                            self.pos(),
                        ),
                    decreases rem_chars(self.src(), self.pos()),
                {
                    let _ = self.advance();
                }
            } else {
                self.add_token(TokenKind::Slash, None);
            }
        } else if c == '"' {
            self.get_string_literal();
        } else if c == ' ' || c == '\r' || c == '\t' {
        } else if c == '\n' {
            if self.line < u32::MAX {
                self.line = self.line + 1;
            }
        } else if is_digit_char(c) {
            self.get_number_literal();
        } else if is_alpha_char(c) {
            self.get_identifier();
        } else {
            let line = self.line;
            self.error_handler.scanning_error(line, "Unexpected character");
        }
    }

    /// Scan the whole source: every token, ended by an end-of-file
    /// token. The scanner's token list is left empty.
    pub fn scan_tokens(&mut self) -> (r: Vec<Token>)
        ensures
            ({
                let (mt, l2, h2) = sem_scan(
                    old(self).src(),
                    old(self).pos(),
                    old(self).line,
                    old(self).toks(),
                    old(self).hm(),
                );
                &&& crate::ast::tokens_view(r@) == mt
                &&& final(self).line == l2
                &&& final(self).hm() == h2
            }),
    {
        while !self.is_at_end()
            invariant
                self.source == old(self).source,
                sem_scan(
                    old(self).src(),
                    old(self).pos(),
                    old(self).line,
                    old(self).toks(),
                    old(self).hm(),
                ) == sem_scan(self.src(), self.pos(), self.line, self.toks(), self.hm()),
            decreases rem_chars(self.src(), self.pos()),
        {
            self.start = self.current;
            self.scan_single_token();
        }
        self.add_token(TokenKind::EndOfFile, None);
        let mut out: Vec<Token> = Vec::new();
        core::mem::swap(&mut out, &mut self.tokens);
        out
    }
}

/// Whether the character is an ASCII decimal digit.
fn is_digit_char(c: char) -> (r: bool)
    ensures
        r == spec_is_digit(c),
{
    c >= '0' && c <= '9'
}

/// Whether the character is an ASCII letter.
fn is_alpha_char(c: char) -> (r: bool)
    ensures
        r == spec_is_alpha(c),
{
    (c >= 'a' && c <= 'z') || (c >= 'A' && c <= 'Z')
}

/// Whether the character is an ASCII letter or digit.
fn is_alnum_char(c: char) -> (r: bool)
    ensures
        r == spec_is_alnum(c),
{
    is_alpha_char(c) || is_digit_char(c)
}



} // verus!
