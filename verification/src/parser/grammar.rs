//! The expression grammar, as functions from a position in the tokens to
//! what is parsed there.
use vstd::prelude::*;

use crate::ast::expression::{binary_op_of, unary_op_of, BinaryOp};
use crate::ast::view::{ExprNode, ExprView, LiteralView};
use crate::parser::literal::{parse_i64_spec, strip_quotes_spec, unescape_spec};
use crate::parser::stream::at_eof;
use crate::span::Span;
use crate::text::{byte_len, byte_offset, lemma_byte_offset_strict};
use crate::token::{Token, TokenKind};

verus! {

/// Whether a token of this kind is parsed as a literal.
pub open spec fn is_literal_kind(k: TokenKind) -> bool {
    k == TokenKind::Int || k == TokenKind::Float || k == TokenKind::String || k == TokenKind::Boolean
}

/// Whether `span` starts and ends at character boundaries of `cs`.
pub open spec fn aligned(cs: Seq<char>, span: Span) -> bool {
    exists|i: int, j: int|
        0 <= i <= j <= cs.len() && byte_offset(cs, i) == span.start && byte_offset(cs, j) == span.start
            + span.len
}

/// The index of the character of `cs` that starts at byte `b`.
pub open spec fn char_index_of(cs: Seq<char>, b: int) -> int {
    choose|i: int| 0 <= i <= cs.len() && byte_offset(cs, i) == b
}

/// The characters of `cs` that `span` covers.
pub open spec fn span_text(cs: Seq<char>, span: Span) -> Seq<char> {
    cs.subrange(char_index_of(cs, span.start as int), char_index_of(cs, span.start + span.len))
}

/// Only one character index has a given byte offset.
pub proof fn lemma_char_index_unique(cs: Seq<char>, i: int, b: int)
    requires
        0 <= i <= cs.len(),
        byte_offset(cs, i) == b,
    ensures
        char_index_of(cs, b) == i,
{
    let k = char_index_of(cs, b);
    assert(0 <= k <= cs.len() && byte_offset(cs, k) == b);
    if k < i {
        lemma_byte_offset_strict(cs, k, i);
    } else if i < k {
        lemma_byte_offset_strict(cs, i, k);
    }
}

/// The value of a literal token of kind `kind` whose text is `text`.
pub open spec fn literal_value(kind: TokenKind, text: Seq<char>) -> LiteralView {
    if kind == TokenKind::Int {
        LiteralView::Int(
            match parse_i64_spec(text) {
                Some(v) => v,
                None => 0,
            },
        )
    } else if kind == TokenKind::Float {
        LiteralView::Float(text)
    } else if kind == TokenKind::String {
        LiteralView::String(unescape_spec(strip_quotes_spec(text)))
    } else {
        LiteralView::Bool(text == seq!['t', 'r', 'u', 'e'])
    }
}

/// What parsing yields at a position: the expression, if one was parsed, the
/// position after it, and the unexpected tokens reported (kind and span).
pub struct Parsed {
    pub expr: Option<ExprNode>,
    pub pos: int,
    pub errors: Seq<(TokenKind, Span)>,
}

/// The operators of a precedence level, from tightest (1) to loosest (5):
/// `* /`, `+ -`, `..`, `> >= < <=`, `== !=`.
pub open spec fn level_op(level: nat, k: TokenKind) -> bool {
    if level == 1 {
        k == TokenKind::Star || k == TokenKind::Slash
    } else if level == 2 {
        k == TokenKind::Plus || k == TokenKind::Minus
    } else if level == 3 {
        k == TokenKind::Range
    } else if level == 4 {
        k == TokenKind::Greater || k == TokenKind::GreaterEq || k == TokenKind::Less || k
            == TokenKind::LessEq
    } else {
        k == TokenKind::EqualEqual || k == TokenKind::BangEqual
    }
}

/// Whether operators of a level chain to the left (`a + b - c`); at the other
/// levels an operand takes at most one operator (`a < b` but not `a < b < c`).
pub open spec fn level_chains(level: nat) -> bool {
    level == 1 || level == 2
}

/// A literal at `pos`; any other token is reported as unexpected and left
/// in place; nothing at all past the end.
pub open spec fn parse_literal_spec(toks: Seq<Token>, cs: Seq<char>, pos: int) -> Parsed {
    if pos < 0 || pos >= toks.len() {
        Parsed { expr: None, pos, errors: Seq::empty() }
    } else {
        let t = toks[pos];
        if is_literal_kind(t.kind) {
            Parsed {
                expr: Some(
                    ExprNode {
                        kind: ExprView::Literal(literal_value(t.kind, span_text(cs, t.span))),
                        span: t.span,
                    },
                ),
                pos: pos + 1,
                errors: Seq::empty(),
            }
        } else {
            Parsed { expr: None, pos, errors: seq![(t.kind, t.span)] }
        }
    }
}

/// An expression of precedence `level` at `pos`: level 0 is a literal
/// preceded by any number of unary `-`, `+` and `!`; a higher level is an
/// operand of the level below, followed by operators of its own level with
/// their right operands.
pub open spec fn parse_level_spec(toks: Seq<Token>, cs: Seq<char>, pos: int, level: nat) -> Parsed
    decreases toks.len() - pos, level, 0nat,
{
    if level == 0 {
        if 0 <= pos < toks.len() && unary_op_of(toks[pos].kind) is Some {
            let r = parse_level_spec(toks, cs, pos + 1, 0);
            match r.expr {
                None => Parsed { expr: None, pos: r.pos, errors: r.errors },
                Some(e) => Parsed {
                    expr: Some(
                        ExprNode {
                            kind: ExprView::Unary(unary_op_of(toks[pos].kind)->0, Box::new(e)),
                            span: toks[pos].span.merge_spec(e.span),
                        },
                    ),
                    pos: r.pos,
                    errors: r.errors,
                },
            }
        } else {
            parse_literal_spec(toks, cs, pos)
        }
    } else {
        let l = parse_level_spec(toks, cs, pos, (level - 1) as nat);
        match l.expr {
            None => l,
            Some(lhs) => if pos < l.pos <= toks.len() {
                parse_tail_spec(toks, cs, lhs, l.pos, level, l.errors)
            } else {
                Parsed { expr: None, pos: l.pos, errors: l.errors }
            },
        }
    }
}

/// The operators of `level` and their right operands that follow the operand
/// `lhs`, which ends at `pos`; `errors` were reported before.
pub open spec fn parse_tail_spec(
    toks: Seq<Token>,
    cs: Seq<char>,
    lhs: ExprNode,
    pos: int,
    level: nat,
    errors: Seq<(TokenKind, Span)>,
) -> Parsed
    decreases toks.len() - pos, level, 1nat,
{
    if 0 <= pos < toks.len() && level > 0 && level_op(level, toks[pos].kind) {
        let op = binary_op_of(toks[pos].kind)->0;
        let r = parse_level_spec(toks, cs, pos + 1, (level - 1) as nat);
        match r.expr {
            None => Parsed { expr: None, pos: r.pos, errors: errors + r.errors },
            Some(rhs) => {
                let node = ExprNode {
                    kind: ExprView::Binary(Box::new(lhs), op, Box::new(rhs)),
                    span: lhs.span.merge_spec(rhs.span),
                };
                if level_chains(level) {
                    if pos < r.pos <= toks.len() {
                        parse_tail_spec(toks, cs, node, r.pos, level, errors + r.errors)
                    } else {
                        Parsed { expr: None, pos: r.pos, errors: errors + r.errors }
                    }
                } else {
                    Parsed { expr: Some(node), pos: r.pos, errors: errors + r.errors }
                }
            },
        }
    } else {
        Parsed { expr: Some(lhs), pos, errors }
    }
}

/// Where error recovery stops from `pos`: at the end, at a token that may
/// start a statement (`let`, `import`, `type`, a number, a string, a name),
/// or at a closing brace; every other token is skipped.
pub open spec fn recover_spec(toks: Seq<Token>, pos: int) -> int
    decreases toks.len() - pos,
{
    if pos < 0 || at_eof(toks, pos) {
        pos
    } else {
        let k = toks[pos].kind;
        if k == TokenKind::Let || k == TokenKind::Import || k == TokenKind::Type || k == TokenKind::Int
            || k == TokenKind::Float || k == TokenKind::String || k == TokenKind::Ident || k
            == TokenKind::RBrace {
            pos
        } else {
            recover_spec(toks, pos + 1)
        }
    }
}

/// Every token's span fits, and the span of every literal token lies on
/// character boundaries of `cs`, whose byte length fits in a `usize`.
pub open spec fn parsable(toks: Seq<Token>, cs: Seq<char>) -> bool {
    &&& byte_len(cs) <= usize::MAX
    &&& forall|k: int| 0 <= k < toks.len() ==> (#[trigger] toks[k]).span.fits()
    &&& forall|k: int|
        0 <= k < toks.len() && is_literal_kind(#[trigger] toks[k].kind) ==> aligned(cs, toks[k].span)
}

/// Parsing never moves back and never passes the end; an expression takes at
/// least one token; the errors of a tail extend the errors before it; every
/// span that parsing builds fits.
pub proof fn lemma_parse_level(toks: Seq<Token>, cs: Seq<char>, pos: int, level: nat)
    requires
        0 <= pos <= toks.len(),
        parsable(toks, cs),
    ensures
        ({
            let r = parse_level_spec(toks, cs, pos, level);
            &&& pos <= r.pos <= toks.len()
            &&& r.expr is Some ==> pos < r.pos && r.expr->0.span.fits()
        }),
    decreases toks.len() - pos, level, 0nat,
{
    if level == 0 {
        if 0 <= pos < toks.len() && unary_op_of(toks[pos].kind) is Some {
            lemma_parse_level(toks, cs, pos + 1, 0);
            assert(toks[pos].span.fits());
        } else if pos < toks.len() {
            assert(toks[pos].span.fits());
        }
    } else {
        lemma_parse_level(toks, cs, pos, (level - 1) as nat);
        let l = parse_level_spec(toks, cs, pos, (level - 1) as nat);
        if l.expr is Some && pos < l.pos <= toks.len() {
            lemma_parse_tail(toks, cs, l.expr->0, l.pos, level, l.errors);
        }
    }
}

/// The tail counterpart of `lemma_parse_level`.
pub proof fn lemma_parse_tail(
    toks: Seq<Token>,
    cs: Seq<char>,
    lhs: ExprNode,
    pos: int,
    level: nat,
    errors: Seq<(TokenKind, Span)>,
)
    requires
        0 <= pos <= toks.len(),
        parsable(toks, cs),
        lhs.span.fits(),
    ensures
        ({
            let r = parse_tail_spec(toks, cs, lhs, pos, level, errors);
            &&& pos <= r.pos <= toks.len()
            &&& r.expr is Some ==> r.expr->0.span.fits()
        }),
    decreases toks.len() - pos, level, 1nat,
{
    if 0 <= pos < toks.len() && level > 0 && level_op(level, toks[pos].kind) {
        lemma_parse_level(toks, cs, pos + 1, (level - 1) as nat);
        let r = parse_level_spec(toks, cs, pos + 1, (level - 1) as nat);
        if r.expr is Some {
            let rhs = r.expr->0;
            let node = ExprNode {
                kind: ExprView::Binary(Box::new(lhs), binary_op_of(toks[pos].kind)->0, Box::new(rhs)),
                span: lhs.span.merge_spec(rhs.span),
            };
            if level_chains(level) && pos < r.pos <= toks.len() {
                lemma_parse_tail(toks, cs, node, r.pos, level, errors + r.errors);
            }
        }
    }
}

/// Recovery never moves back and never passes the end.
pub proof fn lemma_recover(toks: Seq<Token>, pos: int)
    requires
        0 <= pos <= toks.len(),
    ensures
        pos <= recover_spec(toks, pos) <= toks.len(),
    decreases toks.len() - pos,
{
    if !at_eof(toks, pos) {
        lemma_recover(toks, pos + 1);
    }
}

/// What the parse loop yields from `pos`: the expressions of the top-level
/// items and the unexpected tokens, or `None` when the loop would come back to
/// the same position without end.
///
/// Each round parses an expression; when that fails, recovery skips ahead.
pub open spec fn parse_items_spec(toks: Seq<Token>, cs: Seq<char>, pos: int) -> Option<
    (Seq<ExprNode>, Seq<(TokenKind, Span)>),
>
    decreases toks.len() - pos,
{
    if pos < 0 || at_eof(toks, pos) {
        Some((Seq::empty(), Seq::empty()))
    } else {
        let r = parse_level_spec(toks, cs, pos, 5);
        let next = match r.expr {
            Some(_) => r.pos,
            None => recover_spec(toks, r.pos),
        };
        if next <= pos || next > toks.len() {
            None
        } else {
            match parse_items_spec(toks, cs, next) {
                None => None,
                Some((items, errs)) => Some(
                    (
                        match r.expr {
                            Some(e) => seq![e] + items,
                            None => items,
                        },
                        r.errors + errs,
                    ),
                ),
            }
        }
    }
}

/// The literal that the token at `k` is parsed as.
pub open spec fn literal_node(toks: Seq<Token>, cs: Seq<char>, k: int) -> ExprNode {
    ExprNode {
        kind: ExprView::Literal(literal_value(toks[k].kind, span_text(cs, toks[k].span))),
        span: toks[k].span,
    }
}

/// Products bind tighter than sums: `a + b * c`, `a + b / c`, `a - b * c` and
/// `a - b / c`, for literals `a`, `b`, `c` followed by the end, parse as a sum
/// or difference whose right operand is the product or quotient `b op c`.
pub proof fn law_product_binds_tighter_than_sum(toks: Seq<Token>, cs: Seq<char>, p: int)
    requires
        0 <= p,
        p + 5 <= toks.len(),
        is_literal_kind(toks[p].kind),
        toks[p + 1].kind == TokenKind::Plus || toks[p + 1].kind == TokenKind::Minus,
        is_literal_kind(toks[p + 2].kind),
        toks[p + 3].kind == TokenKind::Star || toks[p + 3].kind == TokenKind::Slash,
        is_literal_kind(toks[p + 4].kind),
        p + 5 == toks.len() || toks[p + 5].kind == TokenKind::Eof,
    ensures
        ({
            let r = parse_level_spec(toks, cs, p, 5);
            &&& r.pos == p + 5
            &&& r.expr matches Some(e) && e.kind matches ExprView::Binary(l, op, q) && {
                &&& *l == literal_node(toks, cs, p)
                &&& op == (if toks[p + 1].kind == TokenKind::Plus {
                    BinaryOp::Add
                } else {
                    BinaryOp::Sub
                })
                &&& q.kind matches ExprView::Binary(l2, op2, r2) && {
                    &&& *l2 == literal_node(toks, cs, p + 2)
                    &&& op2 == (if toks[p + 3].kind == TokenKind::Star {
                        BinaryOp::Mul
                    } else {
                        BinaryOp::Div
                    })
                    &&& *r2 == literal_node(toks, cs, p + 4)
                }
            }
        }),
{
    let la = literal_node(toks, cs, p);
    let lb = literal_node(toks, cs, p + 2);
    let lc = literal_node(toks, cs, p + 4);
    let e: Seq<(TokenKind, Span)> = Seq::empty();
    // The literals themselves.
    assert(parse_level_spec(toks, cs, p, 0) == Parsed { expr: Some(la), pos: p + 1, errors: e });
    assert(parse_level_spec(toks, cs, p + 2, 0) == Parsed { expr: Some(lb), pos: p + 3, errors: e });
    assert(parse_level_spec(toks, cs, p + 4, 0) == Parsed { expr: Some(lc), pos: p + 5, errors: e });
    // `b op c` at the tightest level.
    let mulop = binary_op_of(toks[p + 3].kind)->0;
    let n = ExprNode { kind: ExprView::Binary(Box::new(lb), mulop, Box::new(lc)), span: lb.span.merge_spec(lc.span) };
    assert(parse_tail_spec(toks, cs, n, p + 5, 1, e + e) == Parsed { expr: Some(n), pos: p + 5, errors: e + e });
    assert(parse_tail_spec(toks, cs, lb, p + 3, 1, e) == Parsed { expr: Some(n), pos: p + 5, errors: e + e });
    assert(e + e =~= e);
    assert(parse_level_spec(toks, cs, p + 2, 1) == Parsed { expr: Some(n), pos: p + 5, errors: e });
    // `a` alone at the tightest level.
    assert(parse_tail_spec(toks, cs, la, p + 1, 1, e) == Parsed { expr: Some(la), pos: p + 1, errors: e });
    assert(parse_level_spec(toks, cs, p, 1) == Parsed { expr: Some(la), pos: p + 1, errors: e });
    // `a op (b op c)` at the level of sums.
    let addop = binary_op_of(toks[p + 1].kind)->0;
    let m = ExprNode { kind: ExprView::Binary(Box::new(la), addop, Box::new(n)), span: la.span.merge_spec(n.span) };
    assert(parse_tail_spec(toks, cs, m, p + 5, 2, e + e) == Parsed { expr: Some(m), pos: p + 5, errors: e + e });
    assert(parse_tail_spec(toks, cs, la, p + 1, 2, e) == Parsed { expr: Some(m), pos: p + 5, errors: e });
    assert(parse_level_spec(toks, cs, p, 2) == Parsed { expr: Some(m), pos: p + 5, errors: e });
    // The looser levels add nothing.
    assert(parse_tail_spec(toks, cs, m, p + 5, 3, e) == Parsed { expr: Some(m), pos: p + 5, errors: e });
    assert(parse_level_spec(toks, cs, p, 3) == Parsed { expr: Some(m), pos: p + 5, errors: e });
    assert(parse_tail_spec(toks, cs, m, p + 5, 4, e) == Parsed { expr: Some(m), pos: p + 5, errors: e });
    assert(parse_level_spec(toks, cs, p, 4) == Parsed { expr: Some(m), pos: p + 5, errors: e });
    assert(parse_tail_spec(toks, cs, m, p + 5, 5, e) == Parsed { expr: Some(m), pos: p + 5, errors: e });
    assert(parse_level_spec(toks, cs, p, 5) == Parsed { expr: Some(m), pos: p + 5, errors: e });
}

} // verus!
