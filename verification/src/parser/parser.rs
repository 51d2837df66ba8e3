//! The parser's state: the token stream position and the accumulated
//! diagnostics, with frame-based backtracking.

use vstd::prelude::*;

verus! {

use crate::lexer::{Kind, TokenId, Operator, BinaryKind};
use super::error::{ParseError, ExpectedItem, Item, ItemSequence};
use super::model::{
    ExprModel, expr_view, expr_result_view, at_least, expected_after_at, unary_step,
    binary_tail_step, binary_step,
};
use super::expressions::{ExprKind, BinaryExpr};
use super::token_stream::{Token, TokenStream, kind_at};

/// Recursive-descent parser over a stream of token kinds.
#[derive(Debug)]
pub struct Parser {
    pub stream: TokenStream,
    pub errors: Vec<ParseError>,
}

/// A backtracking frame: a stream position and a diagnostic-list length.
/// Restoring it resets the position and truncates the diagnostics, so a
/// discarded alternative leaves nothing behind.
#[derive(Debug, Clone, Copy)]
pub struct ParserFrame {
    pub current: TokenId,
    pub error_count: usize,
}

impl ParserFrame {
    pub fn new(current: TokenId, error_count: usize) -> (f: Self)
        ensures
            f == (ParserFrame { current, error_count }),
    {
        Self { current, error_count }
    }
}

impl Parser {
    /// The token kinds under the parser.
    pub open spec fn toks(&self) -> Seq<Kind> {
        self.stream.kinds@
    }

    /// The current stream position.
    pub open spec fn cur(&self) -> int {
        self.stream.cur()
    }

    pub open spec fn wf(&self) -> bool {
        self.stream.wf()
    }

    /// The shape every parsing step preserves: the stream itself never
    /// changes, the position never moves backwards past where it was, and
    /// diagnostics are only appended.
    pub open spec fn advances_from(&self, o: Parser) -> bool {
        &&& self.wf()
        &&& self.toks() == o.toks()
        &&& o.cur() <= self.cur() <= self.toks().len()
        &&& o.errors@.is_prefix_of(self.errors@)
    }

    pub fn new(kinds: Vec<Kind>) -> (p: Parser)
        requires
            kinds@.len() < u32::MAX,
        ensures
            p.wf(),
            p.toks() == kinds@,
            p.cur() == 0,
            p.errors@ == Seq::<ParseError>::empty(),
    {
        Self { stream: TokenStream::new(kinds), errors: Vec::new() }
    }
}

/// A prefix stays a prefix when the longer sequence grows.
pub broadcast proof fn lemma_prefix_push<A>(a: Seq<A>, b: Seq<A>, x: A)
    requires
        a.is_prefix_of(b),
    ensures
        #![trigger a.is_prefix_of(b), b.push(x)]
        a.is_prefix_of(b.push(x)),
{
    assert(a =~= b.push(x).subrange(0, a.len() as int));
}

/// Being a prefix is transitive.
pub broadcast proof fn lemma_prefix_trans<A>(a: Seq<A>, b: Seq<A>, c: Seq<A>)
    requires
        a.is_prefix_of(b),
        b.is_prefix_of(c),
    ensures
        #![trigger a.is_prefix_of(b), b.is_prefix_of(c)]
        a.is_prefix_of(c),
{
    assert(a =~= c.subrange(0, a.len() as int));
}

impl Parser {
    /// Record a diagnostic.
    pub fn push_error(&mut self, error: ParseError)
        requires
            old(self).wf(),
        ensures
            final(self).wf(),
            final(self).stream == old(self).stream,
            final(self).errors@ == old(self).errors@.push(error),
    {
        self.errors.push(error);
    }
}

impl Parser {
    /// Restore a frame taken earlier: reset the position and drop every
    /// diagnostic recorded since.
    pub fn set_frame(&mut self, frame: ParserFrame)
        requires
            old(self).wf(),
            frame.current.0 <= old(self).toks().len(),
            frame.error_count <= old(self).errors@.len(),
        ensures
            final(self).wf(),
            final(self).toks() == old(self).toks(),
            final(self).stream.current == frame.current,
            final(self).errors@ == old(self).errors@.take(frame.error_count as int),
    {
        self.stream.set_current(frame.current);
        let ghost stream_after = self.stream;
        proof {
            assert(old(self).errors@.take(old(self).errors@.len() as int) =~= old(self).errors@);
        }
        while self.errors.len() > frame.error_count
            invariant
                frame.error_count <= self.errors@.len(),
                self.errors@.len() <= old(self).errors@.len(),
                self.errors@ == old(self).errors@.take(self.errors@.len() as int),
                self.stream == stream_after,
                self.stream.wf(),
                self.stream.kinds@ == old(self).stream.kinds@,
                self.stream.current == frame.current,
            decreases self.errors@.len(),
        {
            let _ = self.errors.pop();
            proof {
                assert(self.errors@ =~= old(self).errors@.take(self.errors@.len() as int));
            }
        }
    }

    /// Capture the current position and diagnostic count.
    pub fn frame(&self) -> (f: ParserFrame)
        ensures
            f.current == self.stream.current,
            f.error_count as int == self.errors@.len() as int,
    {
        ParserFrame::new(self.stream.current_id(), self.errors.len())
    }
}

/// Binary operator levels, loosest first; each level is left-associative.
pub open spec fn level_operator(level: u8, k: BinaryKind) -> bool {
    match level {
        0u8 => k == BinaryKind::Or,
        1u8 => k == BinaryKind::And,
        2u8 => k == BinaryKind::Eq || k == BinaryKind::Ne,
        3u8 => k == BinaryKind::Lt || k == BinaryKind::Gt || k == BinaryKind::Le || k
            == BinaryKind::Ge,
        4u8 => k == BinaryKind::Plus || k == BinaryKind::Minus,
        5u8 => k == BinaryKind::Star || k == BinaryKind::Slash,
        6u8 => k == BinaryKind::BinOr,
        7u8 => k == BinaryKind::BinAnd,
        _ => k == BinaryKind::Caret,
    }
}

/// Whether a binary operator belongs to a precedence level.
fn is_level_operator(level: u8, k: BinaryKind) -> (r: bool)
    ensures
        r == level_operator(level, k),
{
    match level {
        0u8 => matches!(k, BinaryKind::Or),
        1u8 => matches!(k, BinaryKind::And),
        2u8 => matches!(k, BinaryKind::Eq | BinaryKind::Ne),
        3u8 => matches!(k, BinaryKind::Lt | BinaryKind::Gt | BinaryKind::Le | BinaryKind::Ge),
        4u8 => matches!(k, BinaryKind::Plus | BinaryKind::Minus),
        5u8 => matches!(k, BinaryKind::Star | BinaryKind::Slash),
        6u8 => matches!(k, BinaryKind::BinOr),
        7u8 => matches!(k, BinaryKind::BinAnd),
        _ => matches!(k, BinaryKind::Caret),
    }
}

impl Parser {
    /// One precedence level of the expression grammar: parse the tighter
    /// production, then loop consuming this level's operators, building a
    /// left-deep tree.  Exactly [`binary_step`]: absence of a matching
    /// operator silently ends the loop; a missing right operand records one
    /// diagnostic and keeps the tree built so far.
    pub fn parse_binary(&mut self, level: u8) -> (r: Result<ExprKind, ()>)
        requires
            old(self).wf(),
            level <= 8,
        ensures
            final(self).advances_from(*old(self)),
            r is Ok ==> old(self).cur() < final(self).cur(),
            kind_at(old(self).toks(), old(self).cur()) == Kind::Eof ==> r is Err,
            r matches Ok(e) ==> super::expressions::expr_ok(old(self).toks(), e),
            ({
                let (mr, me, merrs) = binary_step(old(self).toks(), old(self).cur(), level);
                &&& expr_result_view(r) == mr
                &&& final(self).cur() == me
                &&& final(self).errors@ == old(self).errors@ + merrs
            }),
        decreases old(self).toks().len() - old(self).cur(), 13int - level,
    {
        let ghost toks = self.toks();
        let ghost c0 = self.cur();
        let node = if level == 8 {
            match self.parse_unary() {
                Ok(n) => n,
                Err(e) => {
                    return Err(e);
                },
            }
        } else {
            match self.parse_binary(level + 1) {
                Ok(n) => n,
                Err(e) => {
                    return Err(e);
                },
            }
        };
        let ghost ne = self.cur();
        proof {
            assert(at_least(ne, c0) == ne);
        }
        let out = self.binary_tail(level, node);
        proof {
            let sub = if level >= 8 {
                unary_step(toks, c0)
            } else {
                binary_step(toks, c0, (level + 1) as u8)
            };
            assert(self.errors@ =~= old(self).errors@ + (sub.2 + binary_tail_step(
                toks,
                ne,
                level,
                expr_view(node),
            ).2));
        }
        Ok(out)
    }

    /// The operator loop of one level, with `node` the tree built so far:
    /// exactly [`binary_tail_step`].
    fn binary_tail(&mut self, level: u8, node: ExprKind) -> (r: ExprKind)
        requires
            old(self).wf(),
            level <= 8,
            super::expressions::expr_ok(old(self).toks(), node),
        ensures
            final(self).advances_from(*old(self)),
            super::expressions::expr_ok(old(self).toks(), r),
            ({
                let (n2, e2, es2) = binary_tail_step(
                    old(self).toks(),
                    old(self).cur(),
                    level,
                    expr_view(node),
                );
                &&& expr_view(r) == n2
                &&& final(self).cur() == e2
                &&& final(self).errors@ == old(self).errors@ + es2
            }),
        decreases old(self).toks().len() - old(self).cur(), 13int,
    {
        let ghost toks = self.toks();
        let ghost p = self.cur();
        let token = self.stream.first();
        let op = match token.kind {
            Kind::Operator(Operator::Binary(k)) => {
                if is_level_operator(level, k) {
                    k
                } else {
                    proof {
                        assert(self.errors@ =~= self.errors@ + Seq::<ParseError>::empty());
                    }
                    return node;
                }
            },
            _ => {
                proof {
                    assert(self.errors@ =~= self.errors@ + Seq::<ParseError>::empty());
                }
                return node;
            },
        };
        self.stream.skip();
        let rhs_result = if level == 8 {
            self.parse_unary()
        } else {
            self.parse_binary(level + 1)
        };
        let ghost re = self.cur();
        let ghost sub = if level >= 8 {
            unary_step(toks, p + 1)
        } else {
            binary_step(toks, p + 1, (level + 1) as u8)
        };
        match rhs_result {
            Ok(rhs) => {
                proof {
                    assert(at_least(re, p + 2) == re);
                }
                let node2 = ExprKind::Binary(BinaryExpr::new(op, Box::new(node), Box::new(rhs)));
                proof {
                    assert(expr_view(node2) == ExprModel::Binary(
                        op,
                        Box::new(expr_view(node)),
                        Box::new(expr_view(rhs)),
                    ));
                }
                let out = self.binary_tail(level, node2);
                proof {
                    assert(self.errors@ =~= old(self).errors@ + (sub.2 + binary_tail_step(
                        toks,
                        re,
                        level,
                        expr_view(node2),
                    ).2));
                }
                out
            },
            Err(_) => {
                // a binary operator may be followed by any statement form
                // that produces a value
                let found = self.stream.second();
                self.push_error(
                    ParseError::Expected(
                        ExpectedItem::after(
                            ItemSequence::StmtWithReturnValue,
                            Item::from_token(found),
                        ),
                    ),
                );
                proof {
                    let s2 = if kind_at(toks, re) != Kind::Eof {
                        re + 1
                    } else {
                        re
                    };
                    assert(self.errors@ =~= old(self).errors@ + (sub.2 + seq![
                        expected_after_at(
                            ItemSequence::StmtWithReturnValue,
                            super::error::item_kind_of(kind_at(toks, s2)),
                            s2,
                        ),
                    ]));
                }
                node
            },
        }
    }
}

impl Parser {
    /// Consume the current token when it has exactly the given kind.
    pub fn expect(&mut self, kind: Kind) -> (r: Result<TokenId, ()>)
        requires
            old(self).wf(),
        ensures
            final(self).wf(),
            final(self).toks() == old(self).toks(),
            final(self).errors@ == old(self).errors@,
            ({
                let k = kind_at(old(self).toks(), old(self).cur());
                if k == kind {
                    &&& r == Ok::<TokenId, ()>(old(self).stream.current)
                    &&& final(self).cur() == (if k != Kind::Eof {
                        old(self).cur() + 1
                    } else {
                        old(self).cur()
                    })
                } else {
                    r == Err::<TokenId, ()>(()) && final(self).stream.current == old(
                        self,
                    ).stream.current
                }
            }),
    {
        self.stream.expect(kind)
    }

    /// The current token, failing at the end of the stream.
    pub fn peek(&mut self) -> (r: Result<Token, ()>)
        requires
            old(self).wf(),
        ensures
            *final(self) == *old(self),
            ({
                let k = kind_at(old(self).toks(), old(self).cur());
                if k == Kind::Eof {
                    r == Err::<Token, ()>(())
                } else {
                    r == Ok::<Token, ()>(Token { id: old(self).stream.current, kind: k })
                }
            }),
    {
        let token = self.stream.first();
        if matches!(token.kind, Kind::Eof) {
            return Err(());
        }
        Ok(token)
    }
}

} // verus!
