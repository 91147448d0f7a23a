//! The recursive-descent parser: tokens to syntax trees, one
//! function per precedence level, with error recovery at statement
//! boundaries.
//!
//! The grammar is first written down as a functional model over token
//! models: each `sem_*` function takes the token sequence, a
//! position, and the diagnostics sink, and yields a parse, the new
//! position, and the sink. The executable parser is proved to compute
//! exactly these transitions. Termination of the model is by the
//! lexicographic measure (remaining tokens, precedence rank); where a
//! rule resumes at a position computed by a sub-rule, the position is
//! normalized with `max` so the measure visibly shrinks — the
//! normalization never changes a position the grammar actually
//! produces, since parsing only moves forward.

use vstd::prelude::*;

use std::rc::Rc;

use crate::ast::{Expr, ExprModel, Stmt, StmtModel, exprs_view, lemma_exprs_view_push,
    lemma_stmts_view, lemma_stmts_view_prepend, lemma_stmts_view_push, stmts_view, tokens_view};
use crate::error::{DiagModel, ErrorHandler, EventModel, HandlerModel, RuntimeEvent};
use crate::token::{LitModel, Literal, Token, TokenKind, TokenModel};

verus! {

/// The larger of two positions.
pub open spec fn pos_max(a: int, b: int) -> int {
    if a >= b {
        a
    } else {
        b
    }
}

/// The tokens left from position `pos` on; zero beyond the end.
pub open spec fn rem(toks: Seq<TokenModel>, pos: int) -> int {
    pos_max(toks.len() - pos, 0)
}

/// The end-of-file token the parser sees when it looks past the end
/// of its input.
pub open spec fn eof_token() -> TokenModel {
    TokenModel { kind: TokenKind::EndOfFile, lexeme: Seq::empty(), literal: None, line: 0 }
}

/// The token at `pos`, or an end-of-file token past either end.
pub open spec fn peek_at(toks: Seq<TokenModel>, pos: int) -> TokenModel {
    if 0 <= pos < toks.len() {
        toks[pos]
    } else {
        eof_token()
    }
}

/// The token before `pos`.
pub open spec fn previous_at(toks: Seq<TokenModel>, pos: int) -> TokenModel {
    peek_at(toks, pos - 1)
}

/// Whether the parser is at the end of input at `pos`.
pub open spec fn at_end_at(toks: Seq<TokenModel>, pos: int) -> bool {
    peek_at(toks, pos).kind == TokenKind::EndOfFile
}

/// Whether the next token has the given kind; never true at the end
/// of input.
pub open spec fn check_at(toks: Seq<TokenModel>, pos: int, kind: TokenKind) -> bool {
    !at_end_at(toks, pos) && peek_at(toks, pos).kind == kind
}

/// One step forward, except at the end of input.
pub open spec fn advance_at(toks: Seq<TokenModel>, pos: int) -> int {
    if !at_end_at(toks, pos) {
        pos + 1
    } else {
        pos
    }
}

/// Consume the next token if it has the given kind: whether it did,
/// and the position after.
pub open spec fn consume_at(toks: Seq<TokenModel>, pos: int, kind: TokenKind) -> (bool, int) {
    if check_at(toks, pos, kind) {
        (true, advance_at(toks, pos))
    } else {
        (false, pos)
    }
}

/// Consume the next token if its kind is among the candidates.
pub open spec fn consume_any_at(toks: Seq<TokenModel>, pos: int, kinds: Seq<TokenKind>) -> (
    bool,
    int,
) {
    if !at_end_at(toks, pos) && kinds.contains(peek_at(toks, pos).kind) {
        (true, advance_at(toks, pos))
    } else {
        (false, pos)
    }
}

/// Report a parse diagnostic for the token — located ` at end` for the
/// end-of-file token, ` at '<lexeme>'` otherwise — and produce the
/// parse-error event the parser propagates.
pub open spec fn sem_error(h: HandlerModel, token: TokenModel, message: Seq<char>) -> (
    EventModel,
    HandlerModel,
) {
    let location = if token.kind == TokenKind::EndOfFile {
        " at end"@
    } else {
        " at '"@ + token.lexeme + "'"@
    };
    (
        EventModel::ParseErr(""@),
        HandlerModel {
            had_error: true,
            log: h.log.push(DiagModel::Parse { line: token.line, location, message }),
        },
    )
}

/// Consume a token of the given kind or report the message: the
/// consumed token on success.
pub open spec fn sem_consume_or(
    toks: Seq<TokenModel>,
    pos: int,
    h: HandlerModel,
    kind: TokenKind,
    message: Seq<char>,
) -> (Result<TokenModel, EventModel>, int, HandlerModel) {
    if check_at(toks, pos, kind) {
        let pos2 = advance_at(toks, pos);
        (Ok(previous_at(toks, pos2)), pos2, h)
    } else {
        let (ev, h2) = sem_error(h, peek_at(toks, pos), message);
        (Err(ev), pos, h2)
    }
}

/// Discard tokens until a statement boundary: just after a semicolon,
/// or just before a keyword that starts a declaration or statement.
pub open spec fn sem_sync_scan(toks: Seq<TokenModel>, pos: int) -> int
    decreases rem(toks, pos),
{
    if at_end_at(toks, pos) {
        pos
    } else if previous_at(toks, pos).kind == TokenKind::Semicolon {
        pos
    } else {
        let k = peek_at(toks, pos).kind;
        if k == TokenKind::Class || k == TokenKind::Fun || k == TokenKind::Var || k
            == TokenKind::For || k == TokenKind::If || k == TokenKind::While || k
            == TokenKind::Print || k == TokenKind::Return {
            pos
        } else {
            sem_sync_scan(toks, pos + 1)
        }
    }
}

/// Error recovery: step past the offending token, then scan to a
/// statement boundary.
pub open spec fn sem_synchronize(toks: Seq<TokenModel>, pos: int) -> int {
    sem_sync_scan(toks, advance_at(toks, pos))
}

/// The literal payload of a literal token; an absent payload reads as
/// nil.
pub open spec fn payload_of(t: TokenModel) -> LitModel {
    match t.literal {
        Some(l) => l,
        None => LitModel::Nil,
    }
}

/// primary := literal | identifier | '(' expression ')'
pub open spec fn sem_primary(toks: Seq<TokenModel>, pos: int, h: HandlerModel) -> (Result<
    ExprModel,
    EventModel,
>, int, HandlerModel)
    decreases rem(toks, pos), 70int,
{
    let (is_false, p1) = consume_at(toks, pos, TokenKind::False);
    if is_false {
        (Ok(ExprModel::LiteralValue { value: LitModel::Bool(false) }), p1, h)
    } else {
        let (is_true, p1) = consume_at(toks, pos, TokenKind::True);
        if is_true {
            (Ok(ExprModel::LiteralValue { value: LitModel::Bool(true) }), p1, h)
        } else {
            let (is_nil, p1) = consume_at(toks, pos, TokenKind::Nil);
            if is_nil {
                (Ok(ExprModel::LiteralValue { value: LitModel::Nil }), p1, h)
            } else {
                let (is_lit, p1) = consume_any_at(
                    toks,
                    pos,
                    seq![TokenKind::Number, TokenKind::String],
                );
                if is_lit {
                    (
                        Ok(
                            ExprModel::LiteralValue {
                                value: payload_of(previous_at(toks, p1)),
                            },
                        ),
                        p1,
                        h,
                    )
                } else {
                    let (is_paren, p1) = consume_at(toks, pos, TokenKind::LeftParen);
                    if is_paren {
                        let (r, p2, h2) = sem_expression(toks, p1, h);
                        match r {
                            Err(ev) => (Err(ev), p2, h2),
                            Ok(e) => {
                                let (rc, p3, h3) = sem_consume_or(
                                    toks,
                                    p2,
                                    h2,
                                    TokenKind::RightParen,
                                    "Expect ')' after expression."@,
                                );
                                match rc {
                                    Err(ev) => (Err(ev), p3, h3),
                                    Ok(_) => (
                                        Ok(
                                            ExprModel::Grouping {
                                                expression: Box::new(e),
                                            },
                                        ),
                                        p3,
                                        h3,
                                    ),
                                }
                            },
                        }
                    } else {
                        let (is_ident, p1) = consume_at(toks, pos, TokenKind::Identifier);
                        if is_ident {
                            (
                                Ok(ExprModel::Variable { name: previous_at(toks, p1) }),
                                p1,
                                h,
                            )
                        } else {
                            (
                                Err(
                                    EventModel::ParseErr(
                                        "Unexpected primary expression token '"@ + peek_at(
                                            toks,
                                            pos,
                                        ).lexeme + "'"@,
                                    ),
                                ),
                                pos,
                                h,
                            )
                        }
                    }
                }
            }
        }
    }
}

/// The arguments of a call: expressions separated by commas.
pub open spec fn sem_arguments(
    toks: Seq<TokenModel>,
    pos: int,
    h: HandlerModel,
    acc: Seq<ExprModel>,
) -> (Result<Seq<ExprModel>, EventModel>, int, HandlerModel)
    decreases rem(toks, pos), 180int,
{
    let (r, p1, h1) = sem_expression(toks, pos, h);
    match r {
        Err(ev) => (Err(ev), p1, h1),
        Ok(e) => {
            let (has_comma, p2) = consume_at(toks, p1, TokenKind::Comma);
            if has_comma && pos < toks.len() {
                sem_arguments(toks, pos_max(pos + 1, p2), h1, acc.push(e))
            } else {
                (Ok(acc.push(e)), p2, h1)
            }
        },
    }
}

/// The rest of a call after its '(': the argument list and the
/// closing parenthesis.
pub open spec fn sem_finish_call(
    toks: Seq<TokenModel>,
    pos: int,
    h: HandlerModel,
    callee: ExprModel,
) -> (Result<ExprModel, EventModel>, int, HandlerModel)
    decreases rem(toks, pos), 185int,
{
    let (args, p1, h1) = if check_at(toks, pos, TokenKind::RightParen) {
        (Result::<Seq<ExprModel>, EventModel>::Ok(Seq::empty()), pos, h)
    } else {
        sem_arguments(toks, pos, h, Seq::empty())
    };
    match args {
        Err(ev) => (Err(ev), p1, h1),
        Ok(arguments) => {
            let (rc, p2, h2) = sem_consume_or(
                toks,
                p1,
                h1,
                TokenKind::RightParen,
                "Expect ')' after arguments."@,
            );
            match rc {
                Err(ev) => (Err(ev), p2, h2),
                Ok(paren) => (
                    Ok(ExprModel::Call { callee: Box::new(callee), paren, arguments }),
                    p2,
                    h2,
                ),
            }
        },
    }
}

/// Trailing call suffixes: as long as a '(' follows, parse another
/// argument list onto the expression built so far.
pub open spec fn sem_call_tail(
    toks: Seq<TokenModel>,
    pos: int,
    h: HandlerModel,
    callee: ExprModel,
) -> (Result<ExprModel, EventModel>, int, HandlerModel)
    decreases rem(toks, pos), 75int,
{
    let (has_paren, p1) = consume_at(toks, pos, TokenKind::LeftParen);
    if has_paren {
        let (r, p2, h2) = sem_finish_call(toks, p1, h, callee);
        match r {
            Err(ev) => (Err(ev), p2, h2),
            Ok(e) => sem_call_tail(toks, pos_max(pos + 1, p2), h2, e),
        }
    } else {
        (Ok(callee), pos, h)
    }
}

/// call := primary ( '(' arguments? ')' )*
pub open spec fn sem_call_expr(toks: Seq<TokenModel>, pos: int, h: HandlerModel) -> (Result<
    ExprModel,
    EventModel,
>, int, HandlerModel)
    decreases rem(toks, pos), 80int,
{
    let (r, p1, h1) = sem_primary(toks, pos, h);
    match r {
        Err(ev) => (Err(ev), p1, h1),
        Ok(e) => sem_call_tail(toks, pos_max(pos, p1), h1, e),
    }
}

/// The rank, in the termination measure, of the parsing level: outer
/// levels rank higher.
pub open spec fn level_rank(level: int) -> int {
    100 + 10 * pos_max(6 - level, 0)
}

/// The rank of a binary tail whose operands parse at `level`.
pub open spec fn tail_rank(level: int) -> int {
    95 + 10 * pos_max(7 - level, 0)
}

/// unary := ('!' | '-') unary | call
pub open spec fn sem_unary(toks: Seq<TokenModel>, pos: int, h: HandlerModel) -> (Result<
    ExprModel,
    EventModel,
>, int, HandlerModel)
    decreases rem(toks, pos), 90int,
{
    let (matched, p1) = consume_any_at(toks, pos, seq![TokenKind::Bang, TokenKind::Minus]);
    if matched {
        let op = previous_at(toks, p1);
        let (r, p2, h2) = sem_unary(toks, pos_max(pos + 1, p1), h);
        match r {
            Err(ev) => (Err(ev), p2, h2),
            Ok(e) => (Ok(ExprModel::Unary { operator: op, right: Box::new(e) }), p2, h2),
        }
    } else {
        sem_call_expr(toks, pos, h)
    }
}

/// Left-associative binary tail: while the next token is among the
/// operators of this level, parse the right operand one level up and
/// fold.
pub open spec fn sem_binary_tail(
    toks: Seq<TokenModel>,
    pos: int,
    h: HandlerModel,
    acc: ExprModel,
    kinds: Seq<TokenKind>,
    level: int,
    logical: bool,
) -> (Result<ExprModel, EventModel>, int, HandlerModel)
    decreases rem(toks, pos), tail_rank(level),
{
    let (matched, p1) = consume_any_at(toks, pos, kinds);
    if matched {
        let op = previous_at(toks, p1);
        let (r, p2, h2) = sem_level(toks, pos_max(pos + 1, p1), h, level);
        match r {
            Err(ev) => (Err(ev), p2, h2),
            Ok(right) => {
                let folded = if logical {
                    ExprModel::Logical { left: Box::new(acc), operator: op, right: Box::new(right) }
                } else {
                    ExprModel::Binary { left: Box::new(acc), operator: op, right: Box::new(right) }
                };
                sem_binary_tail(toks, pos_max(pos + 1, p2), h2, folded, kinds, level, logical)
            },
        }
    } else {
        (Ok(acc), pos, h)
    }
}

/// The binary levels, low to high: 0 is `or`, 1 is `and`, 2 is
/// equality, 3 is comparison, 4 is term, 5 is factor; 6 and above is
/// unary.
pub open spec fn sem_level(toks: Seq<TokenModel>, pos: int, h: HandlerModel, level: int) -> (
    Result<ExprModel, EventModel>,
    int,
    HandlerModel,
)
    decreases rem(toks, pos), level_rank(level),
{
    if level >= 6 {
        sem_unary(toks, pos, h)
    } else {
        let (r, p1, h1) = sem_level(toks, pos, h, level + 1);
        match r {
            Err(ev) => (Err(ev), p1, h1),
            Ok(e) => sem_binary_tail(
                toks,
                pos_max(pos, p1),
                h1,
                e,
                level_kinds(level),
                level + 1,
                level <= 1,
            ),
        }
    }
}

/// The operator tokens of each binary level.
pub open spec fn level_kinds(level: int) -> Seq<TokenKind> {
    if level == 0 {
        seq![TokenKind::Or]
    } else if level == 1 {
        seq![TokenKind::And]
    } else if level == 2 {
        seq![TokenKind::BangEqual, TokenKind::EqualEqual]
    } else if level == 3 {
        seq![TokenKind::Greater, TokenKind::GreaterEqual, TokenKind::Less, TokenKind::LessEqual]
    } else if level == 4 {
        seq![TokenKind::Minus, TokenKind::Plus]
    } else {
        seq![TokenKind::Slash, TokenKind::Star]
    }
}

/// assignment := or ( '=' assignment )?, valid only when the left-hand
/// side is a plain variable.
pub open spec fn sem_assignment(toks: Seq<TokenModel>, pos: int, h: HandlerModel) -> (Result<
    ExprModel,
    EventModel,
>, int, HandlerModel)
    decreases rem(toks, pos), 165int,
{
    let (r, p1, h1) = sem_level(toks, pos, h, 0);
    match r {
        Err(ev) => (Err(ev), p1, h1),
        Ok(e) => {
            let (has_eq, p2) = consume_at(toks, pos_max(pos, p1), TokenKind::Equal);
            if has_eq && pos < toks.len() {
                let equals = previous_at(toks, p2);
                let (rv, p3, h3) = sem_assignment(toks, pos_max(pos + 1, p2), h1);
                match rv {
                    Err(ev) => (Err(ev), p3, h3),
                    Ok(value) => match e {
                        ExprModel::Variable { name } => (
                            Ok(ExprModel::Assignment { name, value: Box::new(value) }),
                            p3,
                            h3,
                        ),
                        _ => {
                            let (ev, h4) = sem_error(h3, equals, "Invalid assignment target."@);
                            (Err(ev), p3, h4)
                        },
                    },
                }
            } else {
                (Ok(e), p2, h1)
            }
        },
    }
}

/// expression := assignment
pub open spec fn sem_expression(toks: Seq<TokenModel>, pos: int, h: HandlerModel) -> (Result<
    ExprModel,
    EventModel,
>, int, HandlerModel)
    decreases rem(toks, pos), 170int,
{
    sem_assignment(toks, pos, h)
}

/// varDecl := 'var' IDENTIFIER ( '=' expression )? ';' — entered after
/// the 'var'.
pub open spec fn sem_var_declaration(toks: Seq<TokenModel>, pos: int, h: HandlerModel) -> (Result<
    StmtModel,
    EventModel,
>, int, HandlerModel)
    decreases rem(toks, pos), 195int,
{
    let (rn, p1, h1) = sem_consume_or(toks, pos, h, TokenKind::Identifier, "Expect variable name"@);
    match rn {
        Err(ev) => (Err(ev), p1, h1),
        Ok(name) => {
            let (has_eq, p2) = consume_at(toks, p1, TokenKind::Equal);
            if has_eq {
                let (ri, p3, h3) = sem_expression(toks, p2, h1);
                match ri {
                    Err(ev) => (Err(ev), p3, h3),
                    Ok(init) => {
                        let (rs, p4, h4) = sem_consume_or(
                            toks,
                            p3,
                            h3,
                            TokenKind::Semicolon,
                            "Expect ';' after variable declaration."@,
                        );
                        match rs {
                            Err(ev) => (Err(ev), p4, h4),
                            Ok(_) => (
                                Ok(StmtModel::VarStmt { name, initializer: Some(init) }),
                                p4,
                                h4,
                            ),
                        }
                    },
                }
            } else {
                let (rs, p3, h3) = sem_consume_or(
                    toks,
                    p2,
                    h1,
                    TokenKind::Semicolon,
                    "Expect ';' after variable declaration."@,
                );
                match rs {
                    Err(ev) => (Err(ev), p3, h3),
                    Ok(_) => (Ok(StmtModel::VarStmt { name, initializer: None }), p3, h3),
                }
            }
        },
    }
}

/// printStmt := 'print' expression ';' — entered after the 'print'.
pub open spec fn sem_print_statement(toks: Seq<TokenModel>, pos: int, h: HandlerModel) -> (Result<
    StmtModel,
    EventModel,
>, int, HandlerModel)
    decreases rem(toks, pos), 195int,
{
    let (r, p1, h1) = sem_expression(toks, pos, h);
    match r {
        Err(ev) => (Err(ev), p1, h1),
        Ok(e) => {
            let (rs, p2, h2) = sem_consume_or(
                toks,
                p1,
                h1,
                TokenKind::Semicolon,
                "Expect ';' after value."@,
            );
            match rs {
                Err(ev) => (Err(ev), p2, h2),
                Ok(_) => (Ok(StmtModel::PrintStmt { expr: e }), p2, h2),
            }
        },
    }
}

/// exprStmt := expression ';'
pub open spec fn sem_expression_statement(toks: Seq<TokenModel>, pos: int, h: HandlerModel) -> (
    Result<StmtModel, EventModel>,
    int,
    HandlerModel,
)
    decreases rem(toks, pos), 182int,
{
    let (r, p1, h1) = sem_expression(toks, pos, h);
    match r {
        Err(ev) => (Err(ev), p1, h1),
        Ok(e) => {
            let (rs, p2, h2) = sem_consume_or(
                toks,
                p1,
                h1,
                TokenKind::Semicolon,
                "Expect ';' after expression."@,
            );
            match rs {
                Err(ev) => (Err(ev), p2, h2),
                Ok(_) => (Ok(StmtModel::ExprStmt { expr: e }), p2, h2),
            }
        },
    }
}

/// returnStmt := 'return' expression? ';' — entered after the
/// 'return'; an absent value reads as the nil sentinel.
pub open spec fn sem_return_statement(toks: Seq<TokenModel>, pos: int, h: HandlerModel) -> (Result<
    StmtModel,
    EventModel,
>, int, HandlerModel)
    decreases rem(toks, pos), 195int,
{
    let keyword = previous_at(toks, pos);
    let (rv, p1, h1) = if check_at(toks, pos, TokenKind::Semicolon) {
        (Result::<ExprModel, EventModel>::Ok(ExprModel::Nil), pos, h)
    } else {
        sem_expression(toks, pos, h)
    };
    match rv {
        Err(ev) => (Err(ev), p1, h1),
        Ok(value) => {
            let (rs, p2, h2) = sem_consume_or(
                toks,
                p1,
                h1,
                TokenKind::Semicolon,
                "Expect ';' after return value."@,
            );
            match rs {
                Err(ev) => (Err(ev), p2, h2),
                Ok(_) => (Ok(StmtModel::ReturnStmt { keyword, value }), p2, h2),
            }
        },
    }
}

/// ifStmt := 'if' '(' expression ')' statement ( 'else' statement )? —
/// entered after the 'if'.
pub open spec fn sem_if_statement(toks: Seq<TokenModel>, pos: int, h: HandlerModel) -> (Result<
    StmtModel,
    EventModel,
>, int, HandlerModel)
    decreases rem(toks, pos), 195int,
{
    let (ro, p1, h1) = sem_consume_or(toks, pos, h, TokenKind::LeftParen, "Expect '(' after 'if'."@);
    match ro {
        Err(ev) => (Err(ev), p1, h1),
        Ok(_) => {
            let (rc, p2, h2) = sem_expression(toks, p1, h1);
            match rc {
                Err(ev) => (Err(ev), p2, h2),
                Ok(condition) => {
                    let (rp, p3, h3) = sem_consume_or(
                        toks,
                        p2,
                        h2,
                        TokenKind::RightParen,
                        "Expect '(' after 'if condition."@,
                    );
                    match rp {
                        Err(ev) => (Err(ev), p3, h3),
                        Ok(_) => {
                            let (rt, p4, h4) = sem_statement(toks, pos_max(pos + 1, p3), h3);
                            match rt {
                                Err(ev) => (Err(ev), p4, h4),
                                Ok(then_branch) => {
                                    let (has_else, p5) = consume_at(toks, p4, TokenKind::Else);
                                    if has_else {
                                        let (re, p6, h6) = sem_statement(
                                            toks,
                                            pos_max(pos + 1, p5),
                                            h4,
                                        );
                                        match re {
                                            Err(ev) => (Err(ev), p6, h6),
                                            Ok(else_branch) => (
                                                Ok(
                                                    StmtModel::IfStmt {
                                                        condition,
                                                        then_branch: Box::new(then_branch),
                                                        else_branch: Some(Box::new(else_branch)),
                                                    },
                                                ),
                                                p6,
                                                h6,
                                            ),
                                        }
                                    } else {
                                        (
                                            Ok(
                                                StmtModel::IfStmt {
                                                    condition,
                                                    then_branch: Box::new(then_branch),
                                                    else_branch: None,
                                                },
                                            ),
                                            p5,
                                            h4,
                                        )
                                    }
                                },
                            }
                        },
                    }
                },
            }
        },
    }
}

/// whileStmt := 'while' '(' expression ')' statement — entered after
/// the 'while'.
pub open spec fn sem_while_statement(toks: Seq<TokenModel>, pos: int, h: HandlerModel) -> (Result<
    StmtModel,
    EventModel,
>, int, HandlerModel)
    decreases rem(toks, pos), 195int,
{
    let (ro, p1, h1) = sem_consume_or(
        toks,
        pos,
        h,
        TokenKind::LeftParen,
        "Expect '(' after 'while'."@,
    );
    match ro {
        Err(ev) => (Err(ev), p1, h1),
        Ok(_) => {
            let (rc, p2, h2) = sem_expression(toks, p1, h1);
            match rc {
                Err(ev) => (Err(ev), p2, h2),
                Ok(condition) => {
                    let (rp, p3, h3) = sem_consume_or(
                        toks,
                        p2,
                        h2,
                        TokenKind::RightParen,
                        "Expect ')' after condition."@,
                    );
                    match rp {
                        Err(ev) => (Err(ev), p3, h3),
                        Ok(_) => {
                            let (rb, p4, h4) = sem_statement(toks, pos_max(pos + 1, p3), h3);
                            match rb {
                                Err(ev) => (Err(ev), p4, h4),
                                Ok(body) => (
                                    Ok(
                                        StmtModel::WhileStmt {
                                            condition,
                                            body: Box::new(body),
                                        },
                                    ),
                                    p4,
                                    h4,
                                ),
                            }
                        },
                    }
                },
            }
        },
    }
}

/// The initializer of a for header: a var declaration, an
/// expression statement, or a bare ';' — entered after the '('.
pub open spec fn sem_for_init(toks: Seq<TokenModel>, pos: int, h: HandlerModel) -> (Result<
    Option<StmtModel>,
    EventModel,
>, int, HandlerModel)
    decreases rem(toks, pos), 193int,
{
    let (skip_init, p1) = consume_at(toks, pos, TokenKind::Semicolon);
    if skip_init {
        (Ok(None), p1, h)
    } else {
        let (is_var, p2) = consume_at(toks, pos, TokenKind::Var);
        if is_var {
            let (rv, p3, h3) = sem_var_declaration(toks, p2, h);
            match rv {
                Err(ev) => (Err(ev), p3, h3),
                Ok(st) => (Ok(Some(st)), p3, h3),
            }
        } else {
            let (rv, p3, h3) = sem_expression_statement(toks, pos, h);
            match rv {
                Err(ev) => (Err(ev), p3, h3),
                Ok(st) => (Ok(Some(st)), p3, h3),
            }
        }
    }
}

/// The condition of a for header: an optional expression, then the
/// ';' that closes it.
pub open spec fn sem_for_cond(toks: Seq<TokenModel>, pos: int, h: HandlerModel) -> (Result<
    Option<ExprModel>,
    EventModel,
>, int, HandlerModel)
    decreases rem(toks, pos), 193int,
{
    let (rc, p1, h1) = if !check_at(toks, pos, TokenKind::Semicolon) {
        let (re, p, hx) = sem_expression(toks, pos, h);
        match re {
            Err(ev) => (Result::<Option<ExprModel>, EventModel>::Err(ev), p, hx),
            Ok(c) => (Ok(Some(c)), p, hx),
        }
    } else {
        (Ok(None), pos, h)
    };
    match rc {
        Err(ev) => (Err(ev), p1, h1),
        Ok(condition) => {
            let (rs, p2, h2) = sem_consume_or(
                toks,
                p1,
                h1,
                TokenKind::Semicolon,
                "Expect ';' after loop condition."@,
            );
            match rs {
                Err(ev) => (Err(ev), p2, h2),
                Ok(_) => (Ok(condition), p2, h2),
            }
        },
    }
}

/// The increment of a for header: an optional expression, then the
/// ')' that closes the header.
pub open spec fn sem_for_incr(toks: Seq<TokenModel>, pos: int, h: HandlerModel) -> (Result<
    Option<ExprModel>,
    EventModel,
>, int, HandlerModel)
    decreases rem(toks, pos), 193int,
{
    let (rc, p1, h1) = if !check_at(toks, pos, TokenKind::RightParen) {
        let (re, p, hx) = sem_expression(toks, pos, h);
        match re {
            Err(ev) => (Result::<Option<ExprModel>, EventModel>::Err(ev), p, hx),
            Ok(c) => (Ok(Some(c)), p, hx),
        }
    } else {
        (Ok(None), pos, h)
    };
    match rc {
        Err(ev) => (Err(ev), p1, h1),
        Ok(increment) => {
            let (rs, p2, h2) = sem_consume_or(
                toks,
                p1,
                h1,
                TokenKind::RightParen,
                "Expect ')' after for clause."@,
            );
            match rs {
                Err(ev) => (Err(ev), p2, h2),
                Ok(_) => (Ok(increment), p2, h2),
            }
        },
    }
}

/// The header of a for statement: '(' initializer condition
/// increment — entered after the 'for'. Yields the optional
/// initializer, condition and increment.
pub open spec fn sem_for_header(toks: Seq<TokenModel>, pos: int, h: HandlerModel) -> (Result<
    (Option<StmtModel>, Option<ExprModel>, Option<ExprModel>),
    EventModel,
>, int, HandlerModel)
    decreases rem(toks, pos), 195int,
{
    let (ro, p1, h1) = sem_consume_or(toks, pos, h, TokenKind::LeftParen, "Expect '(' after 'for'."@);
    match ro {
        Err(ev) => (Err(ev), p1, h1),
        Ok(_) => {
            let (ri, p2, h2) = sem_for_init(toks, p1, h1);
            match ri {
                Err(ev) => (Err(ev), p2, h2),
                Ok(initializer) => {
                    let (rc, p3, h3) = sem_for_cond(toks, pos_max(pos + 1, p2), h2);
                    match rc {
                        Err(ev) => (Err(ev), p3, h3),
                        Ok(condition) => {
                            let (rn, p4, h4) = sem_for_incr(toks, pos_max(pos + 1, p3), h3);
                            match rn {
                                Err(ev) => (Err(ev), p4, h4),
                                Ok(increment) => (
                                    Ok((initializer, condition, increment)),
                                    p4,
                                    h4,
                                ),
                            }
                        },
                    }
                },
            }
        },
    }
}

/// forStmt := header statement — desugared into a while loop: the
/// increment is appended to the body, an absent condition reads as
/// `true`, and the initializer wraps the loop in a block.
pub open spec fn sem_for_statement(toks: Seq<TokenModel>, pos: int, h: HandlerModel) -> (Result<
    StmtModel,
    EventModel,
>, int, HandlerModel)
    decreases rem(toks, pos), 197int,
{
    let (rh, p1, h1) = sem_for_header(toks, pos, h);
    match rh {
        Err(ev) => (Err(ev), p1, h1),
        Ok((initializer, condition, increment)) => {
            let (rb, p2, h2) = sem_statement(toks, pos_max(pos + 1, p1), h1);
            match rb {
                Err(ev) => (Err(ev), p2, h2),
                Ok(body0) => (Ok(desugar_for(initializer, condition, increment, body0)), p2, h2),
            }
        },
    }
}

/// The while-loop form of a for statement.
pub open spec fn desugar_for(
    initializer: Option<StmtModel>,
    condition: Option<ExprModel>,
    increment: Option<ExprModel>,
    body0: StmtModel,
) -> StmtModel {
    let body1 = match increment {
        Some(inc) => StmtModel::BlockStmt {
            declarations: seq![body0, StmtModel::ExprStmt { expr: inc }],
        },
        None => body0,
    };
    let cond = match condition {
        Some(c) => c,
        None => ExprModel::LiteralValue { value: LitModel::Bool(true) },
    };
    let looped = StmtModel::WhileStmt { condition: cond, body: Box::new(body1) };
    match initializer {
        Some(init) => StmtModel::BlockStmt { declarations: seq![init, looped] },
        None => looped,
    }
}

/// The parameter list of a function declaration: identifiers
/// separated by commas.
pub open spec fn sem_parameters(
    toks: Seq<TokenModel>,
    pos: int,
    h: HandlerModel,
    acc: Seq<TokenModel>,
) -> (Result<Seq<TokenModel>, EventModel>, int, HandlerModel)
    decreases rem(toks, pos), 180int,
{
    let (rn, p1, h1) = sem_consume_or(
        toks,
        pos,
        h,
        TokenKind::Identifier,
        "Expect parameter name."@,
    );
    match rn {
        Err(ev) => (Err(ev), p1, h1),
        Ok(name) => {
            let (has_comma, p2) = consume_at(toks, p1, TokenKind::Comma);
            if has_comma {
                sem_parameters(toks, p2, h1, acc.push(name))
            } else {
                (Ok(acc.push(name)), p2, h1)
            }
        },
    }
}

/// funDecl := 'fun' IDENTIFIER '(' parameters? ')' '{' block —
/// entered after the 'fun'.
pub open spec fn sem_function_declaration(toks: Seq<TokenModel>, pos: int, h: HandlerModel) -> (
    Result<StmtModel, EventModel>,
    int,
    HandlerModel,
)
    decreases rem(toks, pos), 195int,
{
    let (rn, p1, h1) = sem_consume_or(
        toks,
        pos,
        h,
        TokenKind::Identifier,
        "Expect function name."@,
    );
    match rn {
        Err(ev) => (Err(ev), p1, h1),
        Ok(name) => {
            let (ro, p2, h2) = sem_consume_or(
                toks,
                p1,
                h1,
                TokenKind::LeftParen,
                "Expect '(' after function name."@,
            );
            match ro {
                Err(ev) => (Err(ev), p2, h2),
                Ok(_) => {
                    let (params, p3, h3) = if check_at(toks, p2, TokenKind::RightParen) {
                        (Result::<Seq<TokenModel>, EventModel>::Ok(Seq::empty()), p2, h2)
                    } else {
                        sem_parameters(toks, p2, h2, Seq::empty())
                    };
                    match params {
                        Err(ev) => (Err(ev), p3, h3),
                        Ok(parameters) => {
                            let (rp, p4, h4) = sem_consume_or(
                                toks,
                                p3,
                                h3,
                                TokenKind::RightParen,
                                "Expect ')' after parameters."@,
                            );
                            match rp {
                                Err(ev) => (Err(ev), p4, h4),
                                Ok(_) => {
                                    let (rb, p5, h5) = sem_consume_or(
                                        toks,
                                        p4,
                                        h4,
                                        TokenKind::LeftBrace,
                                        "Expect '{' before function body."@,
                                    );
                                    match rb {
                                        Err(ev) => (Err(ev), p5, h5),
                                        Ok(_) => {
                                            let (rbody, p6, h6) = sem_block(
                                                toks,
                                                pos_max(pos + 1, p5),
                                                h5,
                                                Seq::empty(),
                                            );
                                            match rbody {
                                                Err(ev) => (Err(ev), p6, h6),
                                                Ok(body) => (
                                                    Ok(
                                                        StmtModel::FunctionStmt {
                                                            name,
                                                            parameters,
                                                            body,
                                                        },
                                                    ),
                                                    p6,
                                                    h6,
                                                ),
                                            }
                                        },
                                    }
                                },
                            }
                        },
                    }
                },
            }
        },
    }
}

/// block := declaration* '}' — entered after the '{'.
pub open spec fn sem_block(
    toks: Seq<TokenModel>,
    pos: int,
    h: HandlerModel,
    acc: Seq<StmtModel>,
) -> (Result<Seq<StmtModel>, EventModel>, int, HandlerModel)
    decreases rem(toks, pos), 210int,
{
    if check_at(toks, pos, TokenKind::RightBrace) || at_end_at(toks, pos) {
        let (rc, p1, h1) = sem_consume_or(
            toks,
            pos,
            h,
            TokenKind::RightBrace,
            "Expect '}' after block."@,
        );
        match rc {
            Err(ev) => (Err(ev), p1, h1),
            Ok(_) => (Ok(acc), p1, h1),
        }
    } else {
        let (r, p1, h1) = sem_declaration(toks, pos, h);
        match r {
            Err(ev) => (Err(ev), p1, h1),
            Ok(st) => sem_block(toks, pos_max(pos + 1, p1), h1, acc.push(st)),
        }
    }
}

/// statement := forStmt | ifStmt | printStmt | returnStmt | whileStmt
/// | block | exprStmt
pub open spec fn sem_statement(toks: Seq<TokenModel>, pos: int, h: HandlerModel) -> (Result<
    StmtModel,
    EventModel,
>, int, HandlerModel)
    decreases rem(toks, pos), 190int,
{
    let (is_for, p) = consume_at(toks, pos, TokenKind::For);
    if is_for {
        sem_for_statement(toks, p, h)
    } else {
        let (is_if, p) = consume_at(toks, pos, TokenKind::If);
        if is_if {
            sem_if_statement(toks, p, h)
        } else {
            let (is_print, p) = consume_at(toks, pos, TokenKind::Print);
            if is_print {
                sem_print_statement(toks, p, h)
            } else {
                let (is_return, p) = consume_at(toks, pos, TokenKind::Return);
                if is_return {
                    sem_return_statement(toks, p, h)
                } else {
                    let (is_while, p) = consume_at(toks, pos, TokenKind::While);
                    if is_while {
                        sem_while_statement(toks, p, h)
                    } else {
                        let (is_brace, p) = consume_at(toks, pos, TokenKind::LeftBrace);
                        if is_brace {
                            let (r, p1, h1) = sem_block(toks, p, h, Seq::empty());
                            match r {
                                Err(ev) => (Err(ev), p1, h1),
                                Ok(declarations) => (
                                    Ok(StmtModel::BlockStmt { declarations }),
                                    p1,
                                    h1,
                                ),
                            }
                        } else {
                            sem_expression_statement(toks, pos, h)
                        }
                    }
                }
            }
        }
    }
}

/// declaration := varDecl | funDecl | statement
pub open spec fn sem_declaration(toks: Seq<TokenModel>, pos: int, h: HandlerModel) -> (Result<
    StmtModel,
    EventModel,
>, int, HandlerModel)
    decreases rem(toks, pos), 200int,
{
    let (is_var, p) = consume_at(toks, pos, TokenKind::Var);
    if is_var {
        sem_var_declaration(toks, p, h)
    } else {
        let (is_fun, p) = consume_at(toks, pos, TokenKind::Fun);
        if is_fun {
            sem_function_declaration(toks, p, h)
        } else {
            sem_statement(toks, pos, h)
        }
    }
}

/// The whole program: declarations until the end of input. A failed
/// declaration has already been reported; the parser synchronizes to
/// the next statement boundary, drops the failed statement alone, and
/// goes on, so one malformed statement costs one diagnostic and
/// nothing else.
pub open spec fn sem_parse_loop(toks: Seq<TokenModel>, pos: int, h: HandlerModel) -> (
    Seq<StmtModel>,
    int,
    HandlerModel,
)
    decreases rem(toks, pos), 220int,
{
    if at_end_at(toks, pos) {
        (Seq::empty(), pos, h)
    } else {
        let (r, p1, h1) = sem_declaration(toks, pos, h);
        match r {
            Ok(st) => {
                let (rest, p2, h2) = sem_parse_loop(toks, pos_max(pos + 1, p1), h1);
                (seq![st] + rest, p2, h2)
            },
            Err(_) => {
                let ps = sem_synchronize(toks, p1);
                sem_parse_loop(toks, pos_max(pos + 1, ps), h1)
            },
        }
    }
}

/// Build the while-loop form of a for statement.
fn desugar_for_stmt(
    initializer: Option<Stmt>,
    condition: Option<Expr>,
    increment: Option<Expr>,
    body0: Stmt,
) -> (r: Stmt)
    ensures
        r@ == desugar_for(
            match initializer {
                Some(s) => Some(s@),
                None => None,
            },
            match condition {
                Some(c) => Some(c@),
                None => None,
            },
            match increment {
                Some(c) => Some(c@),
                None => None,
            },
            body0@,
        ),
{
    let mut body = body0;
    if let Some(inc) = increment {
        let mut wrapped: Vec<Stmt> = Vec::new();
        wrapped.push(body);
        wrapped.push(Stmt::new_expr_stmt(inc));
        proof {
            lemma_stmts_view(wrapped@);
            assert(stmts_view(wrapped@) =~= seq![
                stmts_view(wrapped@)[0],
                stmts_view(wrapped@)[1],
            ]);
        }
        body = Stmt::new_block_stmt(wrapped);
    }
    let cond: Expr = match condition {
        Some(c) => c,
        None => Expr::new_literal(Literal::Boolean(true)),
    };
    body = Stmt::new_while_stmt(cond, body);
    if let Some(init) = initializer {
        let mut wrapped: Vec<Stmt> = Vec::new();
        wrapped.push(init);
        wrapped.push(body);
        proof {
            lemma_stmts_view(wrapped@);
            assert(stmts_view(wrapped@) =~= seq![
                stmts_view(wrapped@)[0],
                stmts_view(wrapped@)[1],
            ]);
        }
        body = Stmt::new_block_stmt(wrapped);
    }
    body
}

/// Model of an expression parse's outcome.
pub open spec fn expr_res_view(r: Result<Expr, RuntimeEvent>) -> Result<ExprModel, EventModel> {
    match r {
        Ok(e) => Ok(e@),
        Err(ev) => Err(ev@),
    }
}

/// Model of a statement parse's outcome.
pub open spec fn stmt_res_view(r: Result<Stmt, RuntimeEvent>) -> Result<StmtModel, EventModel> {
    match r {
        Ok(s) => Ok(s@),
        Err(ev) => Err(ev@),
    }
}

/// Model of a token parse's outcome.
pub open spec fn token_res_view(r: Result<Token, RuntimeEvent>) -> Result<TokenModel, EventModel> {
    match r {
        Ok(t) => Ok(t@),
        Err(ev) => Err(ev@),
    }
}

/// The recursive-descent parser: the token stream, the position of the
/// next token, and the diagnostics sink.
#[derive(Debug)]
pub struct Parser {
    pub tokens: Vec<Token>,
    pub current: usize,
    pub error_handler: ErrorHandler,
}

impl Parser {
    /// Models of this parser's tokens.
    pub open spec fn toks(&self) -> Seq<TokenModel> {
        tokens_view(self.tokens@)
    }

    /// The current position.
    pub open spec fn pos(&self) -> int {
        self.current as int
    }

    /// Model of the diagnostics sink.
    pub open spec fn hm(&self) -> HandlerModel {
        self.error_handler@
    }

    pub fn new(tokens: Vec<Token>, error_handler: ErrorHandler) -> (r: Self)
        ensures
            r.tokens == tokens,
            r.current == 0,
            r.error_handler == error_handler,
    {
        Parser { tokens, current: 0, error_handler }
    }

    /// The next token; an end-of-file token past the end of input.
    fn peek(&self) -> (r: Token)
        ensures
            r@ == peek_at(self.toks(), self.pos()),
    {
        if self.current < self.tokens.len() {
            self.tokens[self.current].clone()
        } else {
            let t = Token::new(TokenKind::EndOfFile, "", None, 0);
            proof {
                reveal_strlit("");
                assert(t@ =~= eof_token());
            }
            t
        }
    }

    /// The token just consumed.
    fn previous(&self) -> (r: Token)
        ensures
            r@ == previous_at(self.toks(), self.pos()),
    {
        if 1 <= self.current && self.current <= self.tokens.len() {
            self.tokens[self.current - 1].clone()
        } else {
            let t = Token::new(TokenKind::EndOfFile, "", None, 0);
            proof {
                reveal_strlit("");
                assert(t@ =~= eof_token());
            }
            t
        }
    }

    fn is_at_end(&self) -> (r: bool)
        ensures
            r == at_end_at(self.toks(), self.pos()),
    {
        let t = self.peek();
        t.kind == TokenKind::EndOfFile
    }

    fn check(&self, candidate: TokenKind) -> (r: bool)
        ensures
            r == check_at(self.toks(), self.pos(), candidate),
    {
        if self.is_at_end() {
            false
        } else {
            let t = self.peek();
            t.kind == candidate
        }
    }

    /// Step past the next token, except at the end of input, and hand
    /// back the token just consumed.
    fn advance(&mut self) -> (r: Token)
        ensures
            final(self).tokens == old(self).tokens,
            final(self).error_handler == old(self).error_handler,
            final(self).pos() == advance_at(old(self).toks(), old(self).pos()),
            r@ == previous_at(final(self).toks(), final(self).pos()),
            old(self).current <= final(self).current,
    {
        if !self.is_at_end() {
            let n = self.tokens.len();
            proof {
                assert(self.current < n) by {
                    if self.current >= n {
                        assert(peek_at(self.toks(), self.pos()) == eof_token());
                    }
                }
            }
            self.current = self.current + 1;
        }
        self.previous()
    }

    /// Consume the next token if it has the given kind.
    fn consume(&mut self, candidate: TokenKind) -> (r: bool)
        ensures
            final(self).tokens == old(self).tokens,
            final(self).error_handler == old(self).error_handler,
            (r, final(self).pos()) == consume_at(old(self).toks(), old(self).pos(), candidate),
            old(self).current <= final(self).current,
    {
        if self.check(candidate) {
            let _ = self.advance();
            true
        } else {
            false
        }
    }

    /// Consume the next token if its kind is among the candidates.
    fn consume_if_one_of(&mut self, candidates: Vec<TokenKind>) -> (r: bool)
        ensures
            final(self).tokens == old(self).tokens,
            final(self).error_handler == old(self).error_handler,
            (r, final(self).pos()) == consume_any_at(
                old(self).toks(),
                old(self).pos(),
                candidates@,
            ),
            old(self).current <= final(self).current,
    {
        let t = self.peek();
        let mut i: usize = 0;
        while i < candidates.len()
            invariant
                0 <= i <= candidates.len(),
                self.tokens == old(self).tokens,
                self.error_handler == old(self).error_handler,
                self.current == old(self).current,
                t@ == peek_at(self.toks(), self.pos()),
                forall|j: int| 0 <= j < i ==> candidates@[j] != t.kind,
            decreases candidates.len() - i,
        {
            if candidates[i] == t.kind {
                if self.check(t.kind) {
                    let _ = self.advance();
                    return true;
                } else {
                    return false;
                }
            }
            i = i + 1;
        }
        proof {
            assert(!candidates@.contains(t@.kind)) by {
                if candidates@.contains(t@.kind) {
                    let j = choose|j: int|
                        0 <= j < candidates@.len() && candidates@[j] == t@.kind;
                }
            }
        }
        false
    }

    /// Report a parse diagnostic for the token and produce the
    /// parse-error event that unwinds to the statement boundary.
    fn error(&mut self, token: &Token, message: &str) -> (r: RuntimeEvent)
        ensures
            final(self).tokens == old(self).tokens,
            final(self).current == old(self).current,
            (r@, final(self).hm()) == sem_error(old(self).hm(), token@, message@),
    {
        if token.kind == TokenKind::EndOfFile {
            self.error_handler.parsing_error(token.line, " at end", message);
        } else {
            let mut loc = " at '".to_owned();
            loc.append(token.lexeme.as_str());
            loc.append("'");
            self.error_handler.parsing_error(token.line, loc.as_str(), message);
        }
        RuntimeEvent::parse_error("")
    }

    /// Consume a token of the given kind or report the message.
    fn consume_or(&mut self, kind: TokenKind, message: &str) -> (r: Result<Token, RuntimeEvent>)
        ensures
            final(self).tokens == old(self).tokens,
            old(self).current <= final(self).current,
            ({
                let (m, p2, h2) = sem_consume_or(
                    old(self).toks(),
                    old(self).pos(),
                    old(self).hm(),
                    kind,
                    message@,
                );
                &&& final(self).pos() == p2
                &&& final(self).hm() == h2
                &&& token_res_view(r) == m
            }),
    {
        if self.check(kind) {
            Ok(self.advance())
        } else {
            let t = self.peek();
            Err(self.error(&t, message))
        }
    }

    /// Never move backward: normalize the position to at least
    /// `floor`. Parsing only moves forward, so this never changes the
    /// position; it makes that visible to the termination measure.
    fn skip_to(&mut self, floor: usize)
        ensures
            final(self).tokens == old(self).tokens,
            final(self).error_handler == old(self).error_handler,
            final(self).pos() == pos_max(floor as int, old(self).pos()),
            old(self).current <= final(self).current,
    {
        if self.current < floor {
            self.current = floor;
        }
    }

    /// Error recovery: discard tokens until a statement boundary.
    fn synchronize(&mut self)
        ensures
            final(self).tokens == old(self).tokens,
            final(self).error_handler == old(self).error_handler,
            final(self).pos() == sem_synchronize(old(self).toks(), old(self).pos()),
            old(self).current <= final(self).current,
    {
        let _ = self.advance();
        let ghost p0 = self.pos();
        loop
            invariant
                self.tokens == old(self).tokens,
                self.error_handler == old(self).error_handler,
                old(self).current <= self.current,
                sem_synchronize(old(self).toks(), old(self).pos()) == sem_sync_scan(
                    self.toks(),
                    p0,
                ),
                sem_sync_scan(self.toks(), p0) == sem_sync_scan(self.toks(), self.pos()),
            decreases rem(self.toks(), self.pos()),
        {
            if self.is_at_end() {
                return;
            }
            let prev = self.previous();
            if prev.kind == TokenKind::Semicolon {
                return;
            }
            let t = self.peek();
            match t.kind {
                TokenKind::Class => {
                    return;
                },
                TokenKind::Fun => {
                    return;
                },
                TokenKind::Var => {
                    return;
                },
                TokenKind::For => {
                    return;
                },
                TokenKind::If => {
                    return;
                },
                TokenKind::While => {
                    return;
                },
                TokenKind::Print => {
                    return;
                },
                TokenKind::Return => {
                    return;
                },
                _ => {
                    let _ = self.advance();
                },
            }
        }
    }

    /// The operator tokens of one binary level.
    fn level_kinds_vec(&self, level: usize) -> (r: Vec<TokenKind>)
        ensures
            r@ == level_kinds(level as int),
    {
        let r: Vec<TokenKind> = if level == 0 {
            vec![TokenKind::Or]
        } else if level == 1 {
            vec![TokenKind::And]
        } else if level == 2 {
            vec![TokenKind::BangEqual, TokenKind::EqualEqual]
        } else if level == 3 {
            vec![
                TokenKind::Greater,
                TokenKind::GreaterEqual,
                TokenKind::Less,
                TokenKind::LessEqual,
            ]
        } else if level == 4 {
            vec![TokenKind::Minus, TokenKind::Plus]
        } else {
            vec![TokenKind::Slash, TokenKind::Star]
        };
        proof {
            assert(r@ =~= level_kinds(level as int));
        }
        r
    }

    /// primary := literal | identifier | '(' expression ')'
    fn primary(&mut self) -> (r: Result<Expr, RuntimeEvent>)
        ensures
            final(self).tokens == old(self).tokens,
            old(self).current <= final(self).current,
            ({
                let (m, p2, h2) = sem_primary(old(self).toks(), old(self).pos(), old(self).hm());
                &&& final(self).pos() == p2
                &&& final(self).hm() == h2
                &&& expr_res_view(r) == m
            }),
        decreases rem(self.toks(), self.pos()), 70int,
    {
        if self.consume(TokenKind::False) {
            return Ok(Expr::new_literal(Literal::Boolean(false)));
        }
        if self.consume(TokenKind::True) {
            return Ok(Expr::new_literal(Literal::Boolean(true)));
        }
        if self.consume(TokenKind::Nil) {
            return Ok(Expr::new_literal(Literal::Nil));
        }
        if self.consume_if_one_of(vec![TokenKind::Number, TokenKind::String]) {
            let prev = self.previous();
            let lit = match prev.literal {
                Some(l) => l,
                None => Literal::Nil,
            };
            return Ok(Expr::new_literal(lit));
        }
        if self.consume(TokenKind::LeftParen) {
            let e = match self.expression() {
                Ok(e) => e,
                Err(ev) => {
                    return Err(ev);
                },
            };
            match self.consume_or(TokenKind::RightParen, "Expect ')' after expression.") {
                Ok(_) => {
                    return Ok(Expr::new_grouping(e));
                },
                Err(ev) => {
                    return Err(ev);
                },
            }
        }
        if self.consume(TokenKind::Identifier) {
            return Ok(Expr::new_variable(self.previous()));
        }
        let t = self.peek();
        let mut m = "Unexpected primary expression token '".to_owned();
        m.append(t.lexeme.as_str());
        m.append("'");
        Err(RuntimeEvent::parse_error(m.as_str()))
    }

    /// The arguments of a call.
    fn arguments(&mut self, acc: Vec<Expr>) -> (r: Result<Vec<Expr>, RuntimeEvent>)
        ensures
            final(self).tokens == old(self).tokens,
            old(self).current <= final(self).current,
            ({
                let (m, p2, h2) = sem_arguments(
                    old(self).toks(),
                    old(self).pos(),
                    old(self).hm(),
                    exprs_view(acc@),
                );
                &&& final(self).pos() == p2
                &&& final(self).hm() == h2
                &&& match (r, m) {
                    (Ok(es), Ok(ms)) => exprs_view(es@) == ms,
                    (Err(ev), Err(em)) => ev@ == em,
                    _ => false,
                }
            }),
        decreases rem(self.toks(), self.pos()), 180int,
    {
        let e = match self.expression() {
            Ok(e) => e,
            Err(ev) => {
                return Err(ev);
            },
        };
        let mut next = acc;
        proof {
            lemma_exprs_view_push(next@, e);
        }
        next.push(e);
        if self.consume(TokenKind::Comma) {
            self.arguments(next)
        } else {
            Ok(next)
        }
    }

    /// The rest of a call after its '('.
    fn finish_call(&mut self, callee: Expr) -> (r: Result<Expr, RuntimeEvent>)
        ensures
            final(self).tokens == old(self).tokens,
            old(self).current <= final(self).current,
            ({
                let (m, p2, h2) = sem_finish_call(
                    old(self).toks(),
                    old(self).pos(),
                    old(self).hm(),
                    callee@,
                );
                &&& final(self).pos() == p2
                &&& final(self).hm() == h2
                &&& expr_res_view(r) == m
            }),
        decreases rem(self.toks(), self.pos()), 185int,
    {
        proof {
            assert(exprs_view(Seq::<Expr>::empty()) =~= Seq::<ExprModel>::empty());
        }
        let args: Vec<Expr> = if self.check(TokenKind::RightParen) {
            Vec::new()
        } else {
            match self.arguments(Vec::new()) {
                Ok(es) => es,
                Err(ev) => {
                    return Err(ev);
                },
            }
        };
        match self.consume_or(TokenKind::RightParen, "Expect ')' after arguments.") {
            Ok(paren) => Ok(Expr::new_call(callee, paren, args)),
            Err(ev) => Err(ev),
        }
    }

    /// Trailing call suffixes.
    fn call_tail(&mut self, callee: Expr) -> (r: Result<Expr, RuntimeEvent>)
        ensures
            final(self).tokens == old(self).tokens,
            old(self).current <= final(self).current,
            ({
                let (m, p2, h2) = sem_call_tail(
                    old(self).toks(),
                    old(self).pos(),
                    old(self).hm(),
                    callee@,
                );
                &&& final(self).pos() == p2
                &&& final(self).hm() == h2
                &&& expr_res_view(r) == m
            }),
        decreases rem(self.toks(), self.pos()), 75int,
    {
        if self.consume(TokenKind::LeftParen) {
            let e = match self.finish_call(callee) {
                Ok(e) => e,
                Err(ev) => {
                    return Err(ev);
                },
            };
            self.call_tail(e)
        } else {
            Ok(callee)
        }
    }

    /// call := primary ( '(' arguments? ')' )*
    fn call(&mut self) -> (r: Result<Expr, RuntimeEvent>)
        ensures
            final(self).tokens == old(self).tokens,
            old(self).current <= final(self).current,
            ({
                let (m, p2, h2) = sem_call_expr(old(self).toks(), old(self).pos(), old(self).hm());
                &&& final(self).pos() == p2
                &&& final(self).hm() == h2
                &&& expr_res_view(r) == m
            }),
        decreases rem(self.toks(), self.pos()), 80int,
    {
        let e = match self.primary() {
            Ok(e) => e,
            Err(ev) => {
                return Err(ev);
            },
        };
        self.call_tail(e)
    }

    /// unary := ('!' | '-') unary | call
    fn unary(&mut self) -> (r: Result<Expr, RuntimeEvent>)
        ensures
            final(self).tokens == old(self).tokens,
            old(self).current <= final(self).current,
            ({
                let (m, p2, h2) = sem_unary(old(self).toks(), old(self).pos(), old(self).hm());
                &&& final(self).pos() == p2
                &&& final(self).hm() == h2
                &&& expr_res_view(r) == m
            }),
        decreases rem(self.toks(), self.pos()), 90int,
    {
        if self.consume_if_one_of(vec![TokenKind::Bang, TokenKind::Minus]) {
            let operator = self.previous();
            let right = match self.unary() {
                Ok(e) => e,
                Err(ev) => {
                    return Err(ev);
                },
            };
            Ok(Expr::new_unary(operator, right))
        } else {
            self.call()
        }
    }

    /// Left-associative binary tail for the operators of `oplevel`.
    fn binary_tail(&mut self, acc: Expr, oplevel: usize) -> (r: Result<Expr, RuntimeEvent>)
        requires
            oplevel < 6,
        ensures
            final(self).tokens == old(self).tokens,
            old(self).current <= final(self).current,
            ({
                let (m, p2, h2) = sem_binary_tail(
                    old(self).toks(),
                    old(self).pos(),
                    old(self).hm(),
                    acc@,
                    level_kinds(oplevel as int),
                    oplevel as int + 1,
                    oplevel <= 1,
                );
                &&& final(self).pos() == p2
                &&& final(self).hm() == h2
                &&& expr_res_view(r) == m
            }),
        decreases rem(self.toks(), self.pos()), tail_rank(oplevel as int + 1),
    {
        let kinds = self.level_kinds_vec(oplevel);
        if self.consume_if_one_of(kinds) {
            let operator = self.previous();
            let right = match self.parse_level(oplevel + 1) {
                Ok(e) => e,
                Err(ev) => {
                    return Err(ev);
                },
            };
            let folded = if oplevel <= 1 {
                Expr::new_logical(acc, operator, right)
            } else {
                Expr::new_binary(acc, operator, right)
            };
            self.binary_tail(folded, oplevel)
        } else {
            Ok(acc)
        }
    }

    /// One binary precedence level: 0 is `or`, 1 is `and`, 2 is
    /// equality, 3 is comparison, 4 is term, 5 is factor, 6 is unary.
    fn parse_level(&mut self, level: usize) -> (r: Result<Expr, RuntimeEvent>)
        ensures
            final(self).tokens == old(self).tokens,
            old(self).current <= final(self).current,
            ({
                let (m, p2, h2) = sem_level(
                    old(self).toks(),
                    old(self).pos(),
                    old(self).hm(),
                    level as int,
                );
                &&& final(self).pos() == p2
                &&& final(self).hm() == h2
                &&& expr_res_view(r) == m
            }),
        decreases rem(self.toks(), self.pos()), level_rank(level as int),
    {
        if level >= 6 {
            self.unary()
        } else {
            let e = match self.parse_level(level + 1) {
                Ok(e) => e,
                Err(ev) => {
                    return Err(ev);
                },
            };
            self.binary_tail(e, level)
        }
    }

    /// assignment := or ( '=' assignment )?
    fn assignment(&mut self) -> (r: Result<Expr, RuntimeEvent>)
        ensures
            final(self).tokens == old(self).tokens,
            old(self).current <= final(self).current,
            ({
                let (m, p2, h2) = sem_assignment(old(self).toks(), old(self).pos(), old(self).hm());
                &&& final(self).pos() == p2
                &&& final(self).hm() == h2
                &&& expr_res_view(r) == m
            }),
        decreases rem(self.toks(), self.pos()), 165int,
    {
        let e = match self.parse_level(0) {
            Ok(e) => e,
            Err(ev) => {
                return Err(ev);
            },
        };
        if self.consume(TokenKind::Equal) {
            let equals = self.previous();
            let value = match self.assignment() {
                Ok(v) => v,
                Err(ev) => {
                    return Err(ev);
                },
            };
            match e {
                Expr::Variable { name } => Ok(Expr::new_assignment(name, value)),
                _ => Err(self.error(&equals, "Invalid assignment target.")),
            }
        } else {
            Ok(e)
        }
    }

    /// expression := assignment
    fn expression(&mut self) -> (r: Result<Expr, RuntimeEvent>)
        ensures
            final(self).tokens == old(self).tokens,
            old(self).current <= final(self).current,
            ({
                let (m, p2, h2) = sem_expression(old(self).toks(), old(self).pos(), old(self).hm());
                &&& final(self).pos() == p2
                &&& final(self).hm() == h2
                &&& expr_res_view(r) == m
            }),
        decreases rem(self.toks(), self.pos()), 170int,
    {
        self.assignment()
    }

    /// varDecl, after its 'var'.
    fn var_declaration(&mut self) -> (r: Result<Stmt, RuntimeEvent>)
        ensures
            final(self).tokens == old(self).tokens,
            old(self).current <= final(self).current,
            ({
                let (m, p2, h2) = sem_var_declaration(
                    old(self).toks(),
                    old(self).pos(),
                    old(self).hm(),
                );
                &&& final(self).pos() == p2
                &&& final(self).hm() == h2
                &&& stmt_res_view(r) == m
            }),
        decreases rem(self.toks(), self.pos()), 195int,
    {
        let name = match self.consume_or(TokenKind::Identifier, "Expect variable name") {
            Ok(t) => t,
            Err(ev) => {
                return Err(ev);
            },
        };
        let initializer: Option<Expr> = if self.consume(TokenKind::Equal) {
            match self.expression() {
                Ok(e) => Some(e),
                Err(ev) => {
                    return Err(ev);
                },
            }
        } else {
            None
        };
        match self.consume_or(TokenKind::Semicolon, "Expect ';' after variable declaration.") {
            Ok(_) => Ok(Stmt::new_var_stmt(name, initializer)),
            Err(ev) => Err(ev),
        }
    }

    /// printStmt, after its 'print'.
    fn print_statement(&mut self) -> (r: Result<Stmt, RuntimeEvent>)
        ensures
            final(self).tokens == old(self).tokens,
            old(self).current <= final(self).current,
            ({
                let (m, p2, h2) = sem_print_statement(
                    old(self).toks(),
                    old(self).pos(),
                    old(self).hm(),
                );
                &&& final(self).pos() == p2
                &&& final(self).hm() == h2
                &&& stmt_res_view(r) == m
            }),
        decreases rem(self.toks(), self.pos()), 195int,
    {
        let e = match self.expression() {
            Ok(e) => e,
            Err(ev) => {
                return Err(ev);
            },
        };
        match self.consume_or(TokenKind::Semicolon, "Expect ';' after value.") {
            Ok(_) => Ok(Stmt::new_print_stmt(e)),
            Err(ev) => Err(ev),
        }
    }

    /// exprStmt := expression ';'
    fn expression_statement(&mut self) -> (r: Result<Stmt, RuntimeEvent>)
        ensures
            final(self).tokens == old(self).tokens,
            old(self).current <= final(self).current,
            ({
                let (m, p2, h2) = sem_expression_statement(
                    old(self).toks(),
                    old(self).pos(),
                    old(self).hm(),
                );
                &&& final(self).pos() == p2
                &&& final(self).hm() == h2
                &&& stmt_res_view(r) == m
            }),
        decreases rem(self.toks(), self.pos()), 182int,
    {
        let e = match self.expression() {
            Ok(e) => e,
            Err(ev) => {
                return Err(ev);
            },
        };
        match self.consume_or(TokenKind::Semicolon, "Expect ';' after expression.") {
            Ok(_) => Ok(Stmt::new_expr_stmt(e)),
            Err(ev) => Err(ev),
        }
    }

    /// returnStmt, after its 'return'.
    fn return_statement(&mut self) -> (r: Result<Stmt, RuntimeEvent>)
        ensures
            final(self).tokens == old(self).tokens,
            old(self).current <= final(self).current,
            ({
                let (m, p2, h2) = sem_return_statement(
                    old(self).toks(),
                    old(self).pos(),
                    old(self).hm(),
                );
                &&& final(self).pos() == p2
                &&& final(self).hm() == h2
                &&& stmt_res_view(r) == m
            }),
        decreases rem(self.toks(), self.pos()), 195int,
    {
        let keyword = self.previous();
        let value: Expr = if self.check(TokenKind::Semicolon) {
            Expr::Nil
        } else {
            match self.expression() {
                Ok(e) => e,
                Err(ev) => {
                    return Err(ev);
                },
            }
        };
        match self.consume_or(TokenKind::Semicolon, "Expect ';' after return value.") {
            Ok(_) => Ok(Stmt::new_return_stmt(keyword, value)),
            Err(ev) => Err(ev),
        }
    }

    /// ifStmt, after its 'if'.
    fn if_statement(&mut self) -> (r: Result<Stmt, RuntimeEvent>)
        ensures
            final(self).tokens == old(self).tokens,
            old(self).current <= final(self).current,
            ({
                let (m, p2, h2) = sem_if_statement(old(self).toks(), old(self).pos(), old(self).hm());
                &&& final(self).pos() == p2
                &&& final(self).hm() == h2
                &&& stmt_res_view(r) == m
            }),
        decreases rem(self.toks(), self.pos()), 195int,
    {
        match self.consume_or(TokenKind::LeftParen, "Expect '(' after 'if'.") {
            Ok(_) => {},
            Err(ev) => {
                return Err(ev);
            },
        }
        let condition = match self.expression() {
            Ok(e) => e,
            Err(ev) => {
                return Err(ev);
            },
        };
        match self.consume_or(TokenKind::RightParen, "Expect '(' after 'if condition.") {
            Ok(_) => {},
            Err(ev) => {
                return Err(ev);
            },
        }
        let then_branch = match self.statement() {
            Ok(s) => s,
            Err(ev) => {
                return Err(ev);
            },
        };
        let else_branch: Option<Stmt> = if self.consume(TokenKind::Else) {
            match self.statement() {
                Ok(s) => Some(s),
                Err(ev) => {
                    return Err(ev);
                },
            }
        } else {
            None
        };
        Ok(Stmt::new_if_stmt(condition, then_branch, else_branch))
    }

    /// whileStmt, after its 'while'.
    fn while_statement(&mut self) -> (r: Result<Stmt, RuntimeEvent>)
        ensures
            final(self).tokens == old(self).tokens,
            old(self).current <= final(self).current,
            ({
                let (m, p2, h2) = sem_while_statement(
                    old(self).toks(),
                    old(self).pos(),
                    old(self).hm(),
                );
                &&& final(self).pos() == p2
                &&& final(self).hm() == h2
                &&& stmt_res_view(r) == m
            }),
        decreases rem(self.toks(), self.pos()), 195int,
    {
        match self.consume_or(TokenKind::LeftParen, "Expect '(' after 'while'.") {
            Ok(_) => {},
            Err(ev) => {
                return Err(ev);
            },
        }
        let condition = match self.expression() {
            Ok(e) => e,
            Err(ev) => {
                return Err(ev);
            },
        };
        match self.consume_or(TokenKind::RightParen, "Expect ')' after condition.") {
            Ok(_) => {},
            Err(ev) => {
                return Err(ev);
            },
        }
        let body = match self.statement() {
            Ok(s) => s,
            Err(ev) => {
                return Err(ev);
            },
        };
        Ok(Stmt::new_while_stmt(condition, body))
    }

    /// forStmt, after its 'for'; desugared into a while loop.
    #[verifier::rlimit(100)]
    fn for_statement(&mut self) -> (r: Result<Stmt, RuntimeEvent>)
        ensures
            final(self).tokens == old(self).tokens,
            old(self).current <= final(self).current,
            ({
                let (m, p2, h2) = sem_for_statement(old(self).toks(), old(self).pos(), old(self).hm());
                &&& final(self).pos() == p2
                &&& final(self).hm() == h2
                &&& stmt_res_view(r) == m
            }),
        decreases rem(self.toks(), self.pos()), 197int,
    {
        proof {
            reveal_with_fuel(sem_for_statement, 2);
        }
        let (initializer, condition, increment) = match self.for_header() {
            Ok(t) => t,
            Err(ev) => {
                return Err(ev);
            },
        };
        let body = match self.statement() {
            Ok(s) => s,
            Err(ev) => {
                return Err(ev);
            },
        };
        Ok(desugar_for_stmt(initializer, condition, increment, body))
    }

    /// The initializer of a for header, after the '('.
    fn for_init(&mut self) -> (r: Result<Option<Stmt>, RuntimeEvent>)
        ensures
            final(self).tokens == old(self).tokens,
            old(self).current <= final(self).current,
            ({
                let (m, p2, h2) = sem_for_init(old(self).toks(), old(self).pos(), old(self).hm());
                &&& final(self).pos() == p2
                &&& final(self).hm() == h2
                &&& match (r, m) {
                    (Ok(i), Ok(mi)) => mi == (match i {
                        Some(s) => Some(s@),
                        None => None,
                    }),
                    (Err(ev), Err(em)) => ev@ == em,
                    _ => false,
                }
            }),
        decreases rem(self.toks(), self.pos()), 193int,
    {
        if self.consume(TokenKind::Semicolon) {
            Ok(None)
        } else if self.consume(TokenKind::Var) {
            match self.var_declaration() {
                Ok(s) => Ok(Some(s)),
                Err(ev) => Err(ev),
            }
        } else {
            match self.expression_statement() {
                Ok(s) => Ok(Some(s)),
                Err(ev) => Err(ev),
            }
        }
    }

    /// The condition of a for header, closed by its ';'.
    fn for_cond(&mut self) -> (r: Result<Option<Expr>, RuntimeEvent>)
        ensures
            final(self).tokens == old(self).tokens,
            old(self).current <= final(self).current,
            ({
                let (m, p2, h2) = sem_for_cond(old(self).toks(), old(self).pos(), old(self).hm());
                &&& final(self).pos() == p2
                &&& final(self).hm() == h2
                &&& match (r, m) {
                    (Ok(c), Ok(mc)) => mc == (match c {
                        Some(e) => Some(e@),
                        None => None,
                    }),
                    (Err(ev), Err(em)) => ev@ == em,
                    _ => false,
                }
            }),
        decreases rem(self.toks(), self.pos()), 193int,
    {
        let condition: Option<Expr> = if !self.check(TokenKind::Semicolon) {
            match self.expression() {
                Ok(e) => Some(e),
                Err(ev) => {
                    return Err(ev);
                },
            }
        } else {
            None
        };
        match self.consume_or(TokenKind::Semicolon, "Expect ';' after loop condition.") {
            Ok(_) => Ok(condition),
            Err(ev) => Err(ev),
        }
    }

    /// The increment of a for header, closed by its ')'.
    fn for_incr(&mut self) -> (r: Result<Option<Expr>, RuntimeEvent>)
        ensures
            final(self).tokens == old(self).tokens,
            old(self).current <= final(self).current,
            ({
                let (m, p2, h2) = sem_for_incr(old(self).toks(), old(self).pos(), old(self).hm());
                &&& final(self).pos() == p2
                &&& final(self).hm() == h2
                &&& match (r, m) {
                    (Ok(c), Ok(mc)) => mc == (match c {
                        Some(e) => Some(e@),
                        None => None,
                    }),
                    (Err(ev), Err(em)) => ev@ == em,
                    _ => false,
                }
            }),
        decreases rem(self.toks(), self.pos()), 193int,
    {
        let increment: Option<Expr> = if !self.check(TokenKind::RightParen) {
            match self.expression() {
                Ok(e) => Some(e),
                Err(ev) => {
                    return Err(ev);
                },
            }
        } else {
            None
        };
        match self.consume_or(TokenKind::RightParen, "Expect ')' after for clause.") {
            Ok(_) => Ok(increment),
            Err(ev) => Err(ev),
        }
    }

    /// The header of a for statement, after its 'for'.
    #[verifier::rlimit(100)]
    fn for_header(&mut self) -> (r: Result<
        (Option<Stmt>, Option<Expr>, Option<Expr>),
        RuntimeEvent,
    >)
        ensures
            final(self).tokens == old(self).tokens,
            old(self).current <= final(self).current,
            r is Ok ==> old(self).current < final(self).current,
            ({
                let (m, p2, h2) = sem_for_header(old(self).toks(), old(self).pos(), old(self).hm());
                &&& final(self).pos() == p2
                &&& final(self).hm() == h2
                &&& match (r, m) {
                    (Ok((i, c, n)), Ok((mi, mc, mn))) => {
                        &&& mi == (match i {
                            Some(s) => Some(s@),
                            None => None,
                        })
                        &&& mc == (match c {
                            Some(e) => Some(e@),
                            None => None,
                        })
                        &&& mn == (match n {
                            Some(e) => Some(e@),
                            None => None,
                        })
                    },
                    (Err(ev), Err(em)) => ev@ == em,
                    _ => false,
                }
            }),
        decreases rem(self.toks(), self.pos()), 195int,
    {
        match self.consume_or(TokenKind::LeftParen, "Expect '(' after 'for'.") {
            Ok(_) => {},
            Err(ev) => {
                return Err(ev);
            },
        }
        let initializer: Option<Stmt> = match self.for_init() {
            Ok(i) => i,
            Err(ev) => {
                return Err(ev);
            },
        };
        let condition: Option<Expr> = match self.for_cond() {
            Ok(c) => c,
            Err(ev) => {
                return Err(ev);
            },
        };
        let increment: Option<Expr> = match self.for_incr() {
            Ok(c) => c,
            Err(ev) => {
                return Err(ev);
            },
        };
        Ok((initializer, condition, increment))
    }

    /// The parameter list of a function declaration.
    fn parameters(&mut self, acc: Vec<Token>) -> (r: Result<Vec<Token>, RuntimeEvent>)
        ensures
            final(self).tokens == old(self).tokens,
            old(self).current <= final(self).current,
            ({
                let (m, p2, h2) = sem_parameters(
                    old(self).toks(),
                    old(self).pos(),
                    old(self).hm(),
                    tokens_view(acc@),
                );
                &&& final(self).pos() == p2
                &&& final(self).hm() == h2
                &&& match (r, m) {
                    (Ok(ts), Ok(ms)) => tokens_view(ts@) == ms,
                    (Err(ev), Err(em)) => ev@ == em,
                    _ => false,
                }
            }),
        decreases rem(self.toks(), self.pos()), 180int,
    {
        let name = match self.consume_or(TokenKind::Identifier, "Expect parameter name.") {
            Ok(t) => t,
            Err(ev) => {
                return Err(ev);
            },
        };
        let mut next = acc;
        let ghost before = next@;
        next.push(name);
        proof {
            assert(tokens_view(next@) =~= tokens_view(before).push(next@[before.len() as int]@));
        }
        if self.consume(TokenKind::Comma) {
            self.parameters(next)
        } else {
            Ok(next)
        }
    }

    /// funDecl, after its 'fun'.
    #[verifier::rlimit(100)]
    fn function_declaration(&mut self) -> (r: Result<Stmt, RuntimeEvent>)
        ensures
            final(self).tokens == old(self).tokens,
            old(self).current <= final(self).current,
            ({
                let (m, p2, h2) = sem_function_declaration(
                    old(self).toks(),
                    old(self).pos(),
                    old(self).hm(),
                );
                &&& final(self).pos() == p2
                &&& final(self).hm() == h2
                &&& stmt_res_view(r) == m
            }),
        decreases rem(self.toks(), self.pos()), 195int,
    {
        let name = match self.consume_or(TokenKind::Identifier, "Expect function name.") {
            Ok(t) => t,
            Err(ev) => {
                return Err(ev);
            },
        };
        match self.consume_or(TokenKind::LeftParen, "Expect '(' after function name.") {
            Ok(_) => {},
            Err(ev) => {
                return Err(ev);
            },
        }
        proof {
            assert(tokens_view(Seq::<Token>::empty()) =~= Seq::<TokenModel>::empty());
        }
        let params: Vec<Token> = if self.check(TokenKind::RightParen) {
            Vec::new()
        } else {
            match self.parameters(Vec::new()) {
                Ok(ts) => ts,
                Err(ev) => {
                    return Err(ev);
                },
            }
        };
        match self.consume_or(TokenKind::RightParen, "Expect ')' after parameters.") {
            Ok(_) => {},
            Err(ev) => {
                return Err(ev);
            },
        }
        match self.consume_or(TokenKind::LeftBrace, "Expect '{' before function body.") {
            Ok(_) => {},
            Err(ev) => {
                return Err(ev);
            },
        }
        proof {
            assert(stmts_view(Seq::<Stmt>::empty()) =~= Seq::<StmtModel>::empty());
        }
        let body = match self.block(Vec::new()) {
            Ok(ss) => ss,
            Err(ev) => {
                return Err(ev);
            },
        };
        Ok(Stmt::new_function(name, Rc::new(params), Rc::new(body)))
    }

    /// block := declaration* '}' — entered after the '{'. Errors
    /// propagate to the statement boundary.
    fn block(&mut self, acc: Vec<Stmt>) -> (r: Result<Vec<Stmt>, RuntimeEvent>)
        ensures
            final(self).tokens == old(self).tokens,
            old(self).current <= final(self).current,
            ({
                let (m, p2, h2) = sem_block(
                    old(self).toks(),
                    old(self).pos(),
                    old(self).hm(),
                    stmts_view(acc@),
                );
                &&& final(self).pos() == p2
                &&& final(self).hm() == h2
                &&& match (r, m) {
                    (Ok(ss), Ok(ms)) => stmts_view(ss@) == ms,
                    (Err(ev), Err(em)) => ev@ == em,
                    _ => false,
                }
            }),
        decreases rem(self.toks(), self.pos()), 210int,
    {
        let entry = self.current;
        if self.check(TokenKind::RightBrace) || self.is_at_end() {
            match self.consume_or(TokenKind::RightBrace, "Expect '}' after block.") {
                Ok(_) => Ok(acc),
                Err(ev) => Err(ev),
            }
        } else {
            let st = match self.declaration() {
                Ok(s) => s,
                Err(ev) => {
                    return Err(ev);
                },
            };
            let mut next = acc;
            proof {
                lemma_stmts_view_push(next@, st);
            }
            next.push(st);
            let n = self.tokens.len();
            proof {
                assert(entry < n) by {
                    if entry >= n {
                        assert(peek_at(old(self).toks(), entry as int) == eof_token());
                    }
                }
            }
            self.skip_to(entry + 1);
            self.block(next)
        }
    }

    /// statement := forStmt | ifStmt | printStmt | returnStmt |
    /// whileStmt | block | exprStmt
    fn statement(&mut self) -> (r: Result<Stmt, RuntimeEvent>)
        ensures
            final(self).tokens == old(self).tokens,
            old(self).current <= final(self).current,
            ({
                let (m, p2, h2) = sem_statement(old(self).toks(), old(self).pos(), old(self).hm());
                &&& final(self).pos() == p2
                &&& final(self).hm() == h2
                &&& stmt_res_view(r) == m
            }),
        decreases rem(self.toks(), self.pos()), 190int,
    {
        if self.consume(TokenKind::For) {
            self.for_statement()
        } else if self.consume(TokenKind::If) {
            self.if_statement()
        } else if self.consume(TokenKind::Print) {
            self.print_statement()
        } else if self.consume(TokenKind::Return) {
            self.return_statement()
        } else if self.consume(TokenKind::While) {
            self.while_statement()
        } else if self.consume(TokenKind::LeftBrace) {
            proof {
                assert(stmts_view(Seq::<Stmt>::empty()) =~= Seq::<StmtModel>::empty());
            }
            let declarations = match self.block(Vec::new()) {
                Ok(ss) => ss,
                Err(ev) => {
                    return Err(ev);
                },
            };
            Ok(Stmt::new_block_stmt(declarations))
        } else {
            self.expression_statement()
        }
    }

    /// declaration := varDecl | funDecl | statement
    fn declaration(&mut self) -> (r: Result<Stmt, RuntimeEvent>)
        ensures
            final(self).tokens == old(self).tokens,
            old(self).current <= final(self).current,
            ({
                let (m, p2, h2) = sem_declaration(old(self).toks(), old(self).pos(), old(self).hm());
                &&& final(self).pos() == p2
                &&& final(self).hm() == h2
                &&& stmt_res_view(r) == m
            }),
        decreases rem(self.toks(), self.pos()), 200int,
    {
        if self.consume(TokenKind::Var) {
            self.var_declaration()
        } else if self.consume(TokenKind::Fun) {
            self.function_declaration()
        } else {
            self.statement()
        }
    }

    /// The top-level loop: parse declarations to the end of input,
    /// recovering at statement boundaries.
    fn parse_program(&mut self) -> (r: Vec<Stmt>)
        ensures
            final(self).tokens == old(self).tokens,
            old(self).current <= final(self).current,
            ({
                let (ms, p2, h2) = sem_parse_loop(old(self).toks(), old(self).pos(), old(self).hm());
                &&& final(self).pos() == p2
                &&& final(self).hm() == h2
                &&& stmts_view(r@) == ms
            }),
        decreases rem(self.toks(), self.pos()), 220int,
    {
        let entry = self.current;
        if self.is_at_end() {
            let empty: Vec<Stmt> = Vec::new();
            proof {
                assert(stmts_view(empty@) =~= Seq::<StmtModel>::empty());
            }
            return empty;
        }
        let n = self.tokens.len();
        proof {
            assert(entry < n) by {
                if entry >= n {
                    assert(peek_at(old(self).toks(), entry as int) == eof_token());
                }
            }
        }
        match self.declaration() {
            Ok(st) => {
                self.skip_to(entry + 1);
                let mut rest = self.parse_program();
                proof {
                    lemma_stmts_view_prepend(rest@, st);
                }
                rest.insert(0, st);
                rest
            },
            Err(_) => {
                self.synchronize();
                self.skip_to(entry + 1);
                self.parse_program()
            },
        }
    }

    /// Parse the whole token stream. Every well-formed top-level
    /// statement is returned, in order; each malformed one was
    /// reported as one diagnostic and dropped.
    pub fn parse(&mut self) -> (r: Result<Vec<Stmt>, RuntimeEvent>)
        ensures
            final(self).tokens == old(self).tokens,
            old(self).current <= final(self).current,
            ({
                let (ms, p2, h2) = sem_parse_loop(old(self).toks(), old(self).pos(), old(self).hm());
                &&& final(self).pos() == p2
                &&& final(self).hm() == h2
                &&& r matches Ok(ss) && stmts_view(ss@) == ms
            }),
    {
        Ok(self.parse_program())
    }
}

} // verus!
