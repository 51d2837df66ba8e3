//! The parser's view of the lexed token stream: a flat, append-only
//! sequence of kinds addressed by [`TokenId`].

use vstd::prelude::*;

verus! {

use crate::lexer::{Kind, TokenId};

/// The token kinds under the parser, with the current position.
#[derive(Debug)]
pub struct TokenStream {
    pub kinds: Vec<Kind>,
    pub current: TokenId,
}

/// A stream token: the id it sits at and its kind.
#[derive(Debug, Clone, Copy, PartialEq, Eq, Structural)]
pub struct Token {
    pub id: TokenId,
    pub kind: Kind,
}

impl Token {
    pub fn new(id: TokenId, kind: Kind) -> (t: Self)
        ensures
            t == (Token { id, kind }),
    {
        Self { id, kind }
    }
}

/// The kind at position `i` of a stream, `Eof` outside it.
pub open spec fn kind_at(kinds: Seq<Kind>, i: int) -> Kind {
    if 0 <= i < kinds.len() {
        kinds[i]
    } else {
        Kind::Eof
    }
}

impl TokenStream {
    /// The current position as an index.
    pub open spec fn cur(&self) -> int {
        self.current.0 as int
    }

    /// The position is inside the stream (one past the end at most), and the
    /// stream is short enough for every id to fit its index type.
    pub open spec fn wf(&self) -> bool {
        self.cur() <= self.kinds@.len() && self.kinds@.len() < u32::MAX
    }

    pub fn new(kinds: Vec<Kind>) -> (s: TokenStream)
        requires
            kinds@.len() < u32::MAX,
        ensures
            s.wf(),
            s.kinds@ == kinds@,
            s.cur() == 0,
    {
        Self::with_current(kinds, TokenId(0))
    }

    pub fn with_current(kinds: Vec<Kind>, current: TokenId) -> (s: TokenStream)
        requires
            kinds@.len() < u32::MAX,
            current.0 <= kinds@.len(),
        ensures
            s.wf(),
            s.kinds@ == kinds@,
            s.current == current,
    {
        Self { kinds, current }
    }

    /// Reset the position, as when a backtracking frame is restored.
    pub fn set_current(&mut self, current: TokenId)
        requires
            old(self).wf(),
            current.0 <= old(self).kinds@.len(),
        ensures
            final(self).wf(),
            final(self).kinds@ == old(self).kinds@,
            final(self).current == current,
    {
        self.current = current;
    }
}

impl TokenStream {
    /// Consume the current token when its kind is one of `kinds`; never
    /// records a diagnostic.
    #[verifier::loop_isolation(false)]
    pub fn expect_any(&mut self, kinds: &[Kind]) -> (r: Result<Token, ()>)
        requires
            old(self).wf(),
        ensures
            final(self).wf(),
            final(self).kinds@ == old(self).kinds@,
            ({
                let k = kind_at(old(self).kinds@, old(self).cur());
                if kinds@.contains(k) {
                    &&& r == Ok::<Token, ()>(Token { id: old(self).current, kind: k })
                    &&& final(self).cur() == (if k != Kind::Eof {
                        old(self).cur() + 1
                    } else {
                        old(self).cur()
                    })
                } else {
                    r == Err::<Token, ()>(()) && final(self).current == old(self).current
                }
            }),
    {
        let id = self.current_id();
        let token = self.first();
        let n = kinds.len();
        let mut i: usize = 0;
        while i < n
            invariant
                i <= n,
                n == kinds@.len(),
                *self == *old(self),
                token.kind == kind_at(self.kinds@, self.cur()),
                forall|j: int| 0 <= j < i ==> kinds@[j] != token.kind,
            decreases n - i,
        {
            if kind_eq(kinds[i], token.kind) {
                self.skip();
                return Ok(Token::new(id, token.kind));
            }
            i = i + 1;
        }
        proof {
            assert(forall|j: int| 0 <= j < kinds@.len() ==> kinds@[j] != token.kind);
        }
        Err(())
    }

    /// Consume the current token when it has exactly the given kind.
    pub fn expect(&mut self, kind: Kind) -> (r: Result<TokenId, ()>)
        requires
            old(self).wf(),
        ensures
            final(self).wf(),
            final(self).kinds@ == old(self).kinds@,
            ({
                let k = kind_at(old(self).kinds@, old(self).cur());
                if k == kind {
                    &&& r == Ok::<TokenId, ()>(old(self).current)
                    &&& final(self).cur() == (if k != Kind::Eof {
                        old(self).cur() + 1
                    } else {
                        old(self).cur()
                    })
                } else {
                    r == Err::<TokenId, ()>(()) && final(self).current == old(self).current
                }
            }),
    {
        let found = self.first();
        if kind_eq(found.kind, kind) {
            Ok(self.next_id())
        } else {
            Err(())
        }
    }

    /// Consume the current token when it has the given kind; never fails.
    pub fn maybe(&mut self, kind: Kind) -> (r: Option<TokenId>)
        requires
            old(self).wf(),
        ensures
            final(self).wf(),
            final(self).kinds@ == old(self).kinds@,
            ({
                let k = kind_at(old(self).kinds@, old(self).cur());
                if k == kind {
                    &&& r == Some(old(self).current)
                    &&& final(self).cur() == (if k != Kind::Eof {
                        old(self).cur() + 1
                    } else {
                        old(self).cur()
                    })
                } else {
                    r == Option::<TokenId>::None && final(self).current == old(self).current
                }
            }),
    {
        let found = self.first();
        if kind_eq(found.kind, kind) {
            Some(self.next_id())
        } else {
            None
        }
    }
}

impl TokenStream {
    /// Skip the current token and look at the next one.
    pub fn advance(&mut self) -> (t: Token)
        requires
            old(self).wf(),
        ensures
            final(self).wf(),
            final(self).kinds@ == old(self).kinds@,
            final(self).cur() == (if kind_at(old(self).kinds@, old(self).cur()) != Kind::Eof {
                old(self).cur() + 1
            } else {
                old(self).cur()
            }),
            t == (Token {
                id: final(self).current,
                kind: kind_at(old(self).kinds@, final(self).cur()),
            }),
    {
        self.skip();
        self.first()
    }

    /// The current token, failing at the end of the stream.
    pub fn peek(&self) -> (r: Result<Token, ()>)
        requires
            self.wf(),
        ensures
            ({
                let k = kind_at(self.kinds@, self.cur());
                if k == Kind::Eof {
                    r == Err::<Token, ()>(())
                } else {
                    r == Ok::<Token, ()>(Token { id: self.current, kind: k })
                }
            }),
    {
        let token = self.first();
        if matches!(token.kind, Kind::Eof) {
            return Err(());
        }
        Ok(token)
    }
}

impl TokenStream {
    /// Consume and return the current token.
    pub fn next(&mut self) -> (t: Token)
        requires
            old(self).wf(),
        ensures
            final(self).wf(),
            final(self).kinds@ == old(self).kinds@,
            t == (Token {
                id: old(self).current,
                kind: kind_at(old(self).kinds@, old(self).cur()),
            }),
            final(self).cur() == (if t.kind != Kind::Eof {
                old(self).cur() + 1
            } else {
                old(self).cur()
            }),
    {
        let id = self.current_id();
        Token::new(id, self.next_kind())
    }

    /// Consume and return the current kind.
    pub fn next_kind(&mut self) -> (k: Kind)
        requires
            old(self).wf(),
        ensures
            final(self).wf(),
            final(self).kinds@ == old(self).kinds@,
            k == kind_at(old(self).kinds@, old(self).cur()),
            final(self).cur() == (if k != Kind::Eof {
                old(self).cur() + 1
            } else {
                old(self).cur()
            }),
    {
        let kind = self.first_kind();
        if !matches!(kind, Kind::Eof) {
            self.current.0 = self.current.0 + 1;
        }
        kind
    }
}

impl TokenStream {
    /// The next two tokens, without consuming.
    pub fn two(&self) -> (r: (Token, Token))
        requires
            self.wf(),
        ensures
            r.0 == (Token { id: self.current, kind: kind_at(self.kinds@, self.cur()) }),
            r.1 == self.spec_second(),
    {
        (self.first(), self.second())
    }

    /// The next two kinds, without consuming.
    pub fn two_kinds(&self) -> (r: (Kind, Kind))
        requires
            self.wf(),
        ensures
            r.0 == kind_at(self.kinds@, self.cur()),
            r.1 == self.spec_second().kind,
    {
        let (a, b) = self.two();
        (a.kind, b.kind)
    }

    /// The token after the current one: the current position advanced past
    /// one non-`Eof` token.
    pub open spec fn spec_second(&self) -> Token {
        let i = if kind_at(self.kinds@, self.cur()) != Kind::Eof {
            self.cur() + 1
        } else {
            self.cur()
        };
        Token { id: TokenId(i as u32), kind: kind_at(self.kinds@, i) }
    }

    /// The token after the current one, without consuming.
    pub fn second(&self) -> (t: Token)
        requires
            self.wf(),
        ensures
            t == self.spec_second(),
    {
        let k = self.first_kind();
        let i = if !matches!(k, Kind::Eof) {
            self.current.0 + 1
        } else {
            self.current.0
        };
        Token::new(TokenId(i), kind_index(&self.kinds, i as usize))
    }

    /// The current token, without consuming.
    pub fn first(&self) -> (t: Token)
        requires
            self.wf(),
        ensures
            t == (Token { id: self.current, kind: kind_at(self.kinds@, self.cur()) }),
    {
        Token::new(self.current_id(), self.first_kind())
    }

    /// The current kind, without consuming.
    pub fn first_kind(&self) -> (k: Kind)
        requires
            self.wf(),
        ensures
            k == kind_at(self.kinds@, self.cur()),
    {
        kind_index(&self.kinds, self.current.as_index())
    }
}

impl TokenStream {
    /// Skip the current token.
    pub fn skip(&mut self)
        requires
            old(self).wf(),
        ensures
            final(self).wf(),
            final(self).kinds@ == old(self).kinds@,
            final(self).cur() == (if kind_at(old(self).kinds@, old(self).cur()) != Kind::Eof {
                old(self).cur() + 1
            } else {
                old(self).cur()
            }),
    {
        let _ = self.next_kind();
    }

    /// Consume the current token and return its id.
    pub fn next_id(&mut self) -> (id: TokenId)
        requires
            old(self).wf(),
        ensures
            final(self).wf(),
            final(self).kinds@ == old(self).kinds@,
            id == old(self).current,
            final(self).cur() == (if kind_at(old(self).kinds@, old(self).cur()) != Kind::Eof {
                old(self).cur() + 1
            } else {
                old(self).cur()
            }),
    {
        let id = self.current_id();
        self.skip();
        id
    }

    /// The current position.
    pub fn current_id(&self) -> (id: TokenId)
        ensures
            id == self.current,
    {
        self.current
    }
}

impl TokenStream {
    /// Number of tokens in the stream.
    pub fn len(&self) -> (n: usize)
        ensures
            n == self.kinds@.len(),
    {
        self.kinds.len()
    }

    /// Number of tokens at and after the current position.
    pub fn remaining_len(&self) -> (n: usize)
        requires
            self.wf(),
        ensures
            n == self.kinds@.len() - self.cur(),
    {
        self.kinds.len() - self.current.as_index()
    }

    /// The kinds at and after the current position.
    pub fn remaining(&self) -> (r: Vec<Kind>)
        requires
            self.wf(),
        ensures
            r@ == self.kinds@.subrange(self.cur(), self.kinds@.len() as int),
    {
        let mut out: Vec<Kind> = Vec::new();
        let mut i = self.current.as_index();
        let n = self.kinds.len();
        while i < n
            invariant
                self.cur() <= i <= n,
                n == self.kinds@.len(),
                out@ == self.kinds@.subrange(self.cur(), i as int),
            decreases n - i,
        {
            out.push(self.kinds[i]);
            proof {
                assert(self.kinds@.subrange(self.cur(), i as int).push(self.kinds@[i as int])
                    =~= self.kinds@.subrange(self.cur(), i + 1));
            }
            i = i + 1;
        }
        out
    }

    /// The whole stream as a slice.
    pub fn as_slice(&self) -> (r: &[Kind])
        ensures
            r@ == self.kinds@,
    {
        self.kinds.as_slice()
    }
}

/// The kind at index `i`, `Eof` outside the stream.
fn kind_index(kinds: &Vec<Kind>, i: usize) -> (k: Kind)
    ensures
        k == kind_at(kinds@, i as int),
{
    if i < kinds.len() {
        kinds[i]
    } else {
        Kind::Eof
    }
}

/// Structural equality of token kinds.
pub(crate) fn kind_eq(a: Kind, b: Kind) -> (r: bool)
    ensures
        r == (a == b),
{
    a == b
}

} // verus!
