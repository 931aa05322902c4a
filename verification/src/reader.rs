use vstd::prelude::*;
use vstd::string::StrSliceExecFns;

verus! {

/// The kind of one lexical span. `Whitespace` and `Comment` are emitted as
/// real tokens, not silently skipped: filtering is the consumer's business.
/// `Newline` is kept apart from generic `Whitespace` because it separates
/// instructions at the grammar layer.
#[derive(Debug, Clone, Copy, PartialEq, Eq, Structural)]
pub enum TokenKind {
    EoF,
    Newline,
    Whitespace,
    Comment,
    Comma,
    Dot,
    LeftBracket,
    RightBracket,
    Plus,
    Ident,
    Number,
}

/// One lexical unit as an offset-free span: a kind and the number of
/// characters consumed. The consumer tracks the cumulative offset into the
/// original source and re-slices the text itself; no text is stored here.
#[derive(Debug)]
pub struct Token {
    kind: TokenKind,
    len: usize,
}

impl Token {
    pub closed spec fn spec_kind(&self) -> TokenKind {
        self.kind
    }

    pub closed spec fn spec_len(&self) -> usize {
        self.len
    }

    pub fn kind(&self) -> (r: TokenKind)
        ensures
            r == self.spec_kind(),
    {
        self.kind
    }

    pub fn len(&self) -> (r: usize)
        ensures
            r == self.spec_len(),
    {
        self.len
    }

    fn new(kind: TokenKind, len: usize) -> (r: Self)
        ensures
            r.spec_kind() == kind,
            r.spec_len() == len,
    {
        Self { kind, len }
    }
}

/// An unrecognized leading character: no token can be formed there. The
/// reader stays put, so a caller may report the character and resynchronize
/// however it likes.
#[derive(Debug, Clone, Copy, PartialEq, Eq, Structural)]
pub struct LexError {
    /// The character that no token class accepts.
    pub character: char,
    /// How many characters the reader had consumed when it met it.
    pub offset: usize,
}

pub open spec fn spec_is_ident_start(c: char) -> bool {
    ('a' as u32 <= c as u32 && c as u32 <= 'z' as u32) || ('A' as u32 <= c as u32 && c as u32
        <= 'Z' as u32) || c == '_'
}

pub open spec fn spec_is_ident_continue(c: char) -> bool {
    spec_is_ident_start(c) || spec_is_digit(c)
}

pub open spec fn spec_is_digit(c: char) -> bool {
    '0' as u32 <= c as u32 && c as u32 <= '9' as u32
}

/// The Unicode whitespace characters, written out.
pub open spec fn spec_is_whitespace(c: char) -> bool {
    ||| c == ' '
    ||| c == '\t'
    ||| c == '\n'
    ||| c == '\u{b}'
    ||| c == '\u{c}'
    ||| c == '\r'
    ||| c == '\u{85}'
    ||| c == '\u{a0}'
    ||| c == '\u{1680}'
    ||| ('\u{2000}' as u32 <= c as u32 && c as u32 <= '\u{200a}' as u32)
    ||| c == '\u{2028}'
    ||| c == '\u{2029}'
    ||| c == '\u{202f}'
    ||| c == '\u{205f}'
    ||| c == '\u{3000}'
}

fn is_ident_start(c: char) -> (r: bool)
    ensures
        r == spec_is_ident_start(c),
{
    let u: u32 = c as u32;
    ('a' as u32 <= u && u <= 'z' as u32) || ('A' as u32 <= u && u <= 'Z' as u32) || c == '_'
}

fn is_ident_continue(c: char) -> (r: bool)
    ensures
        r == spec_is_ident_continue(c),
{
    is_ident_start(c) || is_digit(c)
}

fn is_digit(c: char) -> (r: bool)
    ensures
        r == spec_is_digit(c),
{
    let u: u32 = c as u32;
    '0' as u32 <= u && u <= '9' as u32
}

fn is_whitespace(c: char) -> (r: bool)
    ensures
        r == spec_is_whitespace(c),
{
    let u: u32 = c as u32;
    c == ' ' || c == '\t' || c == '\n' || c == '\u{b}' || c == '\u{c}' || c == '\r' || c == '\u{85}'
        || c == '\u{a0}' || c == '\u{1680}' || ('\u{2000}' as u32 <= u && u <= '\u{200a}' as u32)
        || c == '\u{2028}' || c == '\u{2029}' || c == '\u{202f}' || c == '\u{205f}' || c
        == '\u{3000}'
}

/// What a comment consumes after its `#`: everything up to a newline.
pub open spec fn comment_pred() -> spec_fn(char) -> bool {
    |c: char| c != '\n'
}

/// What a whitespace token consumes after its first character: whitespace
/// that is not a newline.
pub open spec fn space_pred() -> spec_fn(char) -> bool {
    |c: char| spec_is_whitespace(c) && c != '\n'
}

/// What an identifier consumes after its first character.
pub open spec fn ident_pred() -> spec_fn(char) -> bool {
    |c: char| spec_is_ident_continue(c)
}

/// What a number consumes after its first character.
pub open spec fn digit_pred() -> spec_fn(char) -> bool {
    |c: char| spec_is_digit(c)
}

/// The first index at or after `from` where `pred` fails, or `s.len()` if it
/// holds to the end: where a maximal run that began at `from` stops.
pub open spec fn run_end(s: Seq<char>, from: int, pred: spec_fn(char) -> bool) -> int
    decreases s.len() - from,
{
    if from < 0 || from >= s.len() || !pred(s[from]) {
        from
    } else {
        run_end(s, from + 1, pred)
    }
}

pub proof fn lemma_run_end_bounds(s: Seq<char>, from: int, pred: spec_fn(char) -> bool)
    requires
        0 <= from <= s.len(),
    ensures
        from <= run_end(s, from, pred) <= s.len(),
    decreases s.len() - from,
{
    if from < s.len() && pred(s[from]) {
        lemma_run_end_bounds(s, from + 1, pred);
    }
}

/// A run inside a suffix stops where the same run inside the whole sequence
/// stops, shifted by the start of the suffix.
pub proof fn lemma_run_end_skip(s: Seq<char>, off: int, from: int, pred: spec_fn(char) -> bool)
    requires
        0 <= off,
        0 <= from,
        off + from <= s.len(),
    ensures
        run_end(s, off + from, pred) == off + run_end(s.skip(off), from, pred),
    decreases s.len() - off - from,
{
    if off + from < s.len() && pred(s[off + from]) {
        assert(s.skip(off)[from] == s[off + from]);
        lemma_run_end_skip(s, off, from + 1, pred);
    } else {
        if from < s.skip(off).len() {
            assert(s.skip(off)[from] == s[off + from]);
        }
    }
}

/// What the next token of the remaining input `s` is: its kind and the number
/// of characters it spans, or `None` when the first character fits no class.
pub open spec fn spec_token_of(s: Seq<char>) -> Option<(TokenKind, int)> {
    if s.len() == 0 {
        Some((TokenKind::EoF, 0int))
    } else {
        let c = s[0];
        if c == '#' {
            Some((TokenKind::Comment, run_end(s, 1, comment_pred())))
        } else if c == '\n' {
            Some((TokenKind::Newline, 1int))
        } else if spec_is_whitespace(c) {
            Some((TokenKind::Whitespace, run_end(s, 1, space_pred())))
        } else if spec_is_ident_start(c) {
            Some((TokenKind::Ident, run_end(s, 1, ident_pred())))
        } else if spec_is_digit(c) {
            Some((TokenKind::Number, run_end(s, 1, digit_pred())))
        } else if c == ',' {
            Some((TokenKind::Comma, 1int))
        } else if c == '.' {
            Some((TokenKind::Dot, 1int))
        } else if c == '[' {
            Some((TokenKind::LeftBracket, 1int))
        } else if c == ']' {
            Some((TokenKind::RightBracket, 1int))
        } else if c == '+' {
            Some((TokenKind::Plus, 1int))
        } else {
            None
        }
    }
}

/// An `EoF` token arises exactly at the end of the input, and the input that
/// produced it is left unchanged: once `EoF` comes back, every later call
/// sees the same empty input and answers `EoF` with length zero again.
pub proof fn lemma_eof_stability(s: Seq<char>)
    ensures
        (spec_token_of(s) == Some((TokenKind::EoF, 0int))) <==> s.len() == 0,
        s.len() == 0 ==> s.skip(0) == s,
{
    if s.len() == 0 {
        assert(s.skip(0) =~= s);
    }
}

/// Every token cut from a non-empty input spans at least its first character
/// and at most the whole remaining input, so a reader that is not at end of
/// file always makes progress.
pub proof fn lemma_token_progress(s: Seq<char>)
    requires
        s.len() > 0,
        spec_token_of(s) is Some,
    ensures
        1 <= spec_token_of(s)->Some_0.1 <= s.len(),
{
    let c = s[0];
    if c == '#' {
        lemma_run_end_bounds(s, 1, comment_pred());
    } else if c == '\n' {
    } else if spec_is_whitespace(c) {
        lemma_run_end_bounds(s, 1, space_pred());
    } else if spec_is_ident_start(c) {
        lemma_run_end_bounds(s, 1, ident_pred());
    } else if spec_is_digit(c) {
        lemma_run_end_bounds(s, 1, digit_pred());
    }
}

/// A restartable cursor over borrowed source text. It hands out one token per
/// call, never slices: it remembers how much input was left when the current
/// token began and reports each token's length as the difference between that
/// and what is left now.
#[derive(Debug)]
pub struct Reader<'a> {
    src: &'a str,
    /// the total number of characters in `src`
    n: usize,
    /// the number of characters consumed so far
    pos: usize,
    /// the number of characters remaining in `src` at the start of the current token
    len_at_start: usize,
}

impl<'a> Reader<'a> {
    /// The source text this reader walks.
    pub closed spec fn source(&self) -> Seq<char> {
        self.src@
    }

    /// How many characters have been consumed.
    pub closed spec fn position(&self) -> int {
        self.pos as int
    }

    /// The input that is still to be tokenized.
    pub open spec fn remaining(&self) -> Seq<char> {
        self.source().skip(self.position())
    }

    /// Between calls the cached lengths agree with the source.
    pub closed spec fn wf(&self) -> bool {
        &&& self.n == self.src@.len()
        &&& self.pos <= self.n
        &&& self.len_at_start == self.n - self.pos
    }

    pub fn new(src: &'a str) -> (r: Reader<'a>)
        ensures
            r.wf(),
            r.source() == src@,
            r.position() == 0,
    {
        let n: usize = src.unicode_len();
        Reader { src, n, pos: 0, len_at_start: n }
    }

    /// Cuts the next maximal lexical span off the remaining input and
    /// returns its kind and length, or reports the first character when no
    /// token class accepts it, consuming nothing.
    pub fn next(&mut self) -> (r: Result<Token, LexError>)
        requires
            old(self).wf(),
        ensures
            final(self).wf(),
            final(self).source() == old(self).source(),
            match r {
                Ok(t) => {
                    &&& spec_token_of(old(self).remaining()) == Some(
                        (t.spec_kind(), t.spec_len() as int),
                    )
                    &&& t.spec_len() <= old(self).remaining().len()
                    &&& final(self).position() == old(self).position() + t.spec_len()
                    &&& final(self).remaining() == old(self).remaining().skip(t.spec_len() as int)
                },
                Err(e) => {
                    &&& spec_token_of(old(self).remaining()) is None
                    &&& final(self).position() == old(self).position()
                    &&& e.character == old(self).remaining()[0]
                    &&& e.offset == old(self).position()
                },
            },
    {
        let ghost rem = self.remaining();
        let ghost start: int = self.pos as int;
        if self.pos == self.n {
            proof {
                assert(rem.len() == 0);
                assert(rem.skip(0) =~= rem);
            }
            return Ok(Token::new(TokenKind::EoF, 0));
        }
        let start_c = self.src.get_char(self.pos);
        self.pos = self.pos + 1;
        proof {
            assert(rem[0] == start_c);
        }
        let kind = if start_c == '#' {
            self.comment()
        } else if start_c == '\n' {
            TokenKind::Newline
        } else if is_whitespace(start_c) {
            self.eat_whitespace()
        } else if is_ident_start(start_c) {
            self.ident()
        } else if is_digit(start_c) {
            self.number()
        } else if start_c == ',' {
            TokenKind::Comma
        } else if start_c == '.' {
            TokenKind::Dot
        } else if start_c == '[' {
            TokenKind::LeftBracket
        } else if start_c == ']' {
            TokenKind::RightBracket
        } else if start_c == '+' {
            TokenKind::Plus
        } else {
            self.pos = self.pos - 1;
            return Err(LexError { character: start_c, offset: self.pos });
        };
        proof {
            if start_c == '#' {
                lemma_run_end_skip(self.src@, start, 1, comment_pred());
            } else if start_c == '\n' {
            } else if spec_is_whitespace(start_c) {
                lemma_run_end_skip(self.src@, start, 1, space_pred());
            } else if spec_is_ident_start(start_c) {
                lemma_run_end_skip(self.src@, start, 1, ident_pred());
            } else if spec_is_digit(start_c) {
                lemma_run_end_skip(self.src@, start, 1, digit_pred());
            }
        }
        let len: usize = self.token_len();
        self.reset_len();
        proof {
            assert(self.remaining() =~= rem.skip(len as int));
        }
        Ok(Token::new(kind, len))
    }

    fn comment(&mut self) -> (k: TokenKind)
        requires
            old(self).n == old(self).src@.len(),
            old(self).pos <= old(self).n,
        ensures
            k == TokenKind::Comment,
            final(self).src == old(self).src,
            final(self).n == old(self).n,
            final(self).len_at_start == old(self).len_at_start,
            old(self).pos <= final(self).pos <= final(self).n,
            final(self).pos as int == run_end(old(self).src@, old(self).pos as int, comment_pred()),
    {
        let ghost s = self.src@;
        let ghost from: int = self.pos as int;
        loop
            invariant
                self.n == self.src@.len(),
                self.src@ == s,
                self.n == old(self).n,
                self.len_at_start == old(self).len_at_start,
                self.src == old(self).src,
                from <= self.pos as int <= self.n as int,
                run_end(s, from, comment_pred()) == run_end(s, self.pos as int, comment_pred()),
            ensures
                self.src@ == s,
                self.n == old(self).n,
                self.len_at_start == old(self).len_at_start,
                self.src == old(self).src,
                from <= self.pos as int <= self.n as int,
                self.pos as int == run_end(s, from, comment_pred()),
            decreases self.n - self.pos,
        {
            if self.at_eof() {
                break ;
            }
            let c = self.src.get_char(self.pos);
            if c == '\n' {
                break ;
            }
            self.pos = self.pos + 1;
        }
        TokenKind::Comment
    }

    fn eat_whitespace(&mut self) -> (k: TokenKind)
        requires
            old(self).n == old(self).src@.len(),
            old(self).pos <= old(self).n,
        ensures
            k == TokenKind::Whitespace,
            final(self).src == old(self).src,
            final(self).n == old(self).n,
            final(self).len_at_start == old(self).len_at_start,
            old(self).pos <= final(self).pos <= final(self).n,
            final(self).pos as int == run_end(old(self).src@, old(self).pos as int, space_pred()),
    {
        let ghost s = self.src@;
        let ghost from: int = self.pos as int;
        loop
            invariant
                self.n == self.src@.len(),
                self.src@ == s,
                self.n == old(self).n,
                self.len_at_start == old(self).len_at_start,
                self.src == old(self).src,
                from <= self.pos as int <= self.n as int,
                run_end(s, from, space_pred()) == run_end(s, self.pos as int, space_pred()),
            ensures
                self.src@ == s,
                self.n == old(self).n,
                self.len_at_start == old(self).len_at_start,
                self.src == old(self).src,
                from <= self.pos as int <= self.n as int,
                self.pos as int == run_end(s, from, space_pred()),
            decreases self.n - self.pos,
        {
            if self.at_eof() {
                break ;
            }
            let c = self.src.get_char(self.pos);
            if !(is_whitespace(c) && c != '\n') {
                break ;
            }
            self.pos = self.pos + 1;
        }
        TokenKind::Whitespace
    }

    fn ident(&mut self) -> (k: TokenKind)
        requires
            old(self).n == old(self).src@.len(),
            old(self).pos <= old(self).n,
        ensures
            k == TokenKind::Ident,
            final(self).src == old(self).src,
            final(self).n == old(self).n,
            final(self).len_at_start == old(self).len_at_start,
            old(self).pos <= final(self).pos <= final(self).n,
            final(self).pos as int == run_end(old(self).src@, old(self).pos as int, ident_pred()),
    {
        let ghost s = self.src@;
        let ghost from: int = self.pos as int;
        loop
            invariant
                self.n == self.src@.len(),
                self.src@ == s,
                self.n == old(self).n,
                self.len_at_start == old(self).len_at_start,
                self.src == old(self).src,
                from <= self.pos as int <= self.n as int,
                run_end(s, from, ident_pred()) == run_end(s, self.pos as int, ident_pred()),
            ensures
                self.src@ == s,
                self.n == old(self).n,
                self.len_at_start == old(self).len_at_start,
                self.src == old(self).src,
                from <= self.pos as int <= self.n as int,
                self.pos as int == run_end(s, from, ident_pred()),
            decreases self.n - self.pos,
        {
            if self.at_eof() {
                break ;
            }
            let c = self.src.get_char(self.pos);
            if !is_ident_continue(c) {
                break ;
            }
            self.pos = self.pos + 1;
        }
        TokenKind::Ident
    }

    fn number(&mut self) -> (k: TokenKind)
        requires
            old(self).n == old(self).src@.len(),
            old(self).pos <= old(self).n,
        ensures
            k == TokenKind::Number,
            final(self).src == old(self).src,
            final(self).n == old(self).n,
            final(self).len_at_start == old(self).len_at_start,
            old(self).pos <= final(self).pos <= final(self).n,
            final(self).pos as int == run_end(old(self).src@, old(self).pos as int, digit_pred()),
    {
        let ghost s = self.src@;
        let ghost from: int = self.pos as int;
        loop
            invariant
                self.n == self.src@.len(),
                self.src@ == s,
                self.n == old(self).n,
                self.len_at_start == old(self).len_at_start,
                self.src == old(self).src,
                from <= self.pos as int <= self.n as int,
                run_end(s, from, digit_pred()) == run_end(s, self.pos as int, digit_pred()),
            ensures
                self.src@ == s,
                self.n == old(self).n,
                self.len_at_start == old(self).len_at_start,
                self.src == old(self).src,
                from <= self.pos as int <= self.n as int,
                self.pos as int == run_end(s, from, digit_pred()),
            decreases self.n - self.pos,
        {
            if self.at_eof() {
                break ;
            }
            let c = self.src.get_char(self.pos);
            if !is_digit(c) {
                break ;
            }
            self.pos = self.pos + 1;
        }
        TokenKind::Number
    }

    fn token_len(&self) -> (r: usize)
        requires
            self.n == self.src@.len(),
            self.pos <= self.n,
            self.len_at_start >= self.n - self.pos,
        ensures
            r == self.len_at_start - (self.n - self.pos),
    {
        self.len_at_start - (self.n - self.pos)
    }

    fn reset_len(&mut self)
        requires
            old(self).n == old(self).src@.len(),
            old(self).pos <= old(self).n,
        ensures
            final(self).src == old(self).src,
            final(self).n == old(self).n,
            final(self).pos == old(self).pos,
            final(self).wf(),
    {
        self.len_at_start = self.n - self.pos;
    }

    fn at_eof(&self) -> (r: bool)
        requires
            self.n == self.src@.len(),
            self.pos <= self.n,
        ensures
            r == (self.pos == self.n),
    {
        self.pos == self.n
    }
}

} // verus!
