//! Shell-like tokenization of a raw input line.
//!
//! A line is split at whitespace into tokens; a single- or double-quoted
//! region keeps its whitespace and loses the quotes; segments that touch
//! (as in `a"b c"d`) belong to one token. A line whose last quote is never
//! closed does not tokenize at all.
//!
//! The grammar is given as a character-by-character step function
//! ([`spec_step`]) folded over the line ([`spec_run`]), and [`split`] is
//! proved to compute exactly that fold.

use vstd::prelude::*;
use vstd::string::StrSliceExecFns;

verus! {

/// Whitespace that separates tokens.
pub open spec fn is_space(c: char) -> bool {
    c == ' ' || c == '\t' || c == '\n' || c == '\r'
}

/// A quote character that groups whitespace.
pub open spec fn is_quote(c: char) -> bool {
    c == '"' || c == '\''
}

/// True iff `c` separates tokens.
pub fn is_space_char(c: char) -> (r: bool)
    ensures
        r == is_space(c),
{
    c == ' ' || c == '\t' || c == '\n' || c == '\r'
}

/// True iff `c` opens or closes a quoted region.
pub fn is_quote_char(c: char) -> (r: bool)
    ensures
        r == is_quote(c),
{
    c == '"' || c == '\''
}

/// Tokenizer state after reading a prefix of the line. `current` holds the
/// token being built and is empty whenever `in_token` is false; `quote`
/// holds the opening quote character while inside a quoted region.
pub struct TokenizerState {
    pub tokens: Seq<Seq<char>>,
    pub in_token: bool,
    pub current: Seq<char>,
    pub quote: Option<char>,
}

/// The state before any character has been read.
pub open spec fn spec_init() -> TokenizerState {
    TokenizerState { tokens: Seq::empty(), in_token: false, current: Seq::empty(), quote: None }
}

/// Reads one character: inside quotes everything but the closing quote is
/// kept; outside, a quote opens a region, whitespace finishes the current
/// token, and any other character extends it.
pub open spec fn spec_step(st: TokenizerState, c: char) -> TokenizerState {
    match st.quote {
        Some(q) => if c == q {
            TokenizerState { tokens: st.tokens, in_token: st.in_token, current: st.current, quote: None }
        } else {
            TokenizerState {
                tokens: st.tokens,
                in_token: st.in_token,
                current: st.current.push(c),
                quote: Some(q),
            }
        },
        None => if is_quote(c) {
            TokenizerState { tokens: st.tokens, in_token: true, current: st.current, quote: Some(c) }
        } else if is_space(c) {
            if st.in_token {
                TokenizerState {
                    tokens: st.tokens.push(st.current),
                    in_token: false,
                    current: Seq::empty(),
                    quote: None,
                }
            } else {
                st
            }
        } else {
            TokenizerState {
                tokens: st.tokens,
                in_token: true,
                current: st.current.push(c),
                quote: None,
            }
        },
    }
}

/// The state after reading the first `n` characters of `s`.
pub open spec fn spec_run(s: Seq<char>, n: int) -> TokenizerState
    recommends
        0 <= n <= s.len(),
    decreases n,
{
    if n <= 0 {
        spec_init()
    } else {
        spec_step(spec_run(s, n - 1), s[n - 1])
    }
}

/// The token list of a whole line, or `None` when a quote is left open.
pub open spec fn spec_split(s: Seq<char>) -> Option<Seq<Seq<char>>> {
    let st = spec_run(s, s.len() as int);
    if st.quote is Some {
        None
    } else if st.in_token {
        Some(st.tokens.push(st.current))
    } else {
        Some(st.tokens)
    }
}

/// Splits a raw line into shell-like tokens, or returns `None` when a
/// quoted region is never closed (no partial token list is produced).
pub fn split(line: &str) -> (r: Option<Vec<String>>)
    ensures
        match r {
            Some(tokens) => spec_split(line@) == Some(tokens.deep_view()),
            None => spec_split(line@) is None,
        },
{
    let len = line.unicode_len();
    let mut tokens: Vec<String> = Vec::new();
    let mut current = String::new();
    let mut in_token = false;
    let mut quote: Option<char> = None;
    let mut i: usize = 0;
    while i < len
        invariant
            0 <= i <= len,
            len == line@.len(),
            tokens.deep_view() == spec_run(line@, i as int).tokens,
            in_token == spec_run(line@, i as int).in_token,
            current@ == spec_run(line@, i as int).current,
            quote == spec_run(line@, i as int).quote,
            !in_token ==> current@ == Seq::<char>::empty(),
        decreases len - i,
    {
        let ghost st = spec_run(line@, i as int);
        let c = line.get_char(i);
        match quote {
            Some(q) => {
                if c == q {
                    quote = None;
                } else {
                    current.push(c);
                }
            },
            None => {
                if is_quote_char(c) {
                    quote = Some(c);
                    in_token = true;
                } else if is_space_char(c) {
                    if in_token {
                        tokens.push(current);
                        current = String::new();
                        in_token = false;
                        proof {
                            assert(tokens.deep_view() =~= st.tokens.push(st.current));
                        }
                    }
                } else {
                    current.push(c);
                    in_token = true;
                }
            },
        }
        proof {
            assert(spec_run(line@, i + 1) == spec_step(st, line@[i as int]));
        }
        i += 1;
    }
    if quote.is_some() {
        return None;
    }
    if in_token {
        tokens.push(current);
        proof {
            assert(tokens.deep_view() =~= spec_run(line@, len as int).tokens.push(
                spec_run(line@, len as int).current,
            ));
        }
    }
    Some(tokens)
}

} // verus!
