//! POSIX shell quoting of one word, and the GStreamer command line that grabs one
//! screencast frame.

use vstd::prelude::*;
use crate::text::{chars_of, push_char};

verus! {

/// What replaces one character inside the single-quoted word: a quote closes the
/// single-quoted run, is written inside double quotes, and reopens the run.
pub open spec fn quote_piece(c: char) -> Seq<char> {
    if c == '\'' {
        seq!['\'', '"', '\'', '"', '\'']
    } else {
        seq![c]
    }
}

/// Every quote of `s` replaced by `'"'"'` (`str::replace('\'', "'\"'\"'")`).
pub open spec fn escape_quotes(s: Seq<char>) -> Seq<char>
    decreases s.len(),
{
    if s.len() == 0 {
        Seq::<char>::empty()
    } else {
        quote_piece(s[0]) + escape_quotes(s.drop_first())
    }
}

/// The single-quoted shell word for `s`.
pub open spec fn shell_quoted(s: Seq<char>) -> Seq<char> {
    seq!['\''] + escape_quotes(s) + seq!['\'']
}

/// Where a POSIX shell reader stands inside a word made of quoted runs.
pub enum QuoteState {
    Outside,
    InSingle,
    InDouble,
}

/// The value that a POSIX shell gives a word made only of single- and double-quoted
/// runs, or `None` for anything else (an unquoted character, an unterminated run, or
/// a character that is special inside double quotes).
pub open spec fn shell_word_value(w: Seq<char>, st: QuoteState) -> Option<Seq<char>>
    decreases w.len(),
{
    if w.len() == 0 {
        if st is Outside {
            Some(Seq::<char>::empty())
        } else {
            None
        }
    } else {
        let c = w[0];
        let rest = w.drop_first();
        match st {
            QuoteState::Outside => if c == '\'' {
                shell_word_value(rest, QuoteState::InSingle)
            } else if c == '"' {
                shell_word_value(rest, QuoteState::InDouble)
            } else {
                None
            },
            QuoteState::InSingle => if c == '\'' {
                shell_word_value(rest, QuoteState::Outside)
            } else {
                prefix_value(c, shell_word_value(rest, QuoteState::InSingle))
            },
            QuoteState::InDouble => if c == '"' {
                shell_word_value(rest, QuoteState::Outside)
            } else if c == '$' || c == '`' || c == '\\' {
                None
            } else {
                prefix_value(c, shell_word_value(rest, QuoteState::InDouble))
            },
        }
    }
}

/// `c` put in front of a word value.
pub open spec fn prefix_value(c: char, v: Option<Seq<char>>) -> Option<Seq<char>> {
    match v {
        Some(t) => Some(seq![c] + t),
        None => None,
    }
}

proof fn lemma_escape_concat(a: Seq<char>, b: Seq<char>)
    ensures
        escape_quotes(a + b) == escape_quotes(a) + escape_quotes(b),
    decreases a.len(),
{
    if a.len() == 0 {
        assert(a + b == b);
    } else {
        assert((a + b).drop_first() == a.drop_first() + b);
        lemma_escape_concat(a.drop_first(), b);
        assert(escape_quotes(a + b) == quote_piece(a[0]) + escape_quotes(a.drop_first() + b));
    }
}

proof fn lemma_single_run(s: Seq<char>, rest: Seq<char>)
    ensures
        shell_word_value(escape_quotes(s) + rest, QuoteState::InSingle) == match shell_word_value(
            rest,
            QuoteState::InSingle,
        ) {
            Some(t) => Some(s + t),
            None => None::<Seq<char>>,
        },
    decreases s.len(),
{
    let tail = escape_quotes(s.drop_first()) + rest;
    if s.len() == 0 {
        assert(escape_quotes(s) + rest == rest);
    } else {
        lemma_single_run(s.drop_first(), rest);
        let c = s[0];
        let w = escape_quotes(s) + rest;
        if c == '\'' {
            let w1 = w.drop_first();
            let w2 = w1.drop_first();
            let w3 = w2.drop_first();
            let w4 = w3.drop_first();
            assert(w == seq!['\'', '"', '\'', '"', '\''] + tail);
            assert(w1 == seq!['"', '\'', '"', '\''] + tail);
            assert(w2 == seq!['\'', '"', '\''] + tail);
            assert(w3 == seq!['"', '\''] + tail);
            assert(w4 == seq!['\''] + tail);
            assert(w4.drop_first() == tail);
            assert(w[0] == '\'' && w1[0] == '"' && w2[0] == '\'' && w3[0] == '"' && w4[0] == '\'');
            assert(shell_word_value(w4, QuoteState::Outside) == shell_word_value(tail, QuoteState::InSingle));
            assert(shell_word_value(w3, QuoteState::InDouble) == shell_word_value(w4, QuoteState::Outside));
            assert(shell_word_value(w2, QuoteState::InDouble) == prefix_value('\'', shell_word_value(w3, QuoteState::InDouble)));
            assert(shell_word_value(w1, QuoteState::Outside) == shell_word_value(w2, QuoteState::InDouble));
            assert(shell_word_value(w, QuoteState::InSingle) == shell_word_value(w1, QuoteState::Outside));
        } else {
            assert(w == seq![c] + tail);
            assert(w.drop_first() == tail);
            assert(w[0] == c);
            assert(shell_word_value(w, QuoteState::InSingle) == prefix_value(c, shell_word_value(tail, QuoteState::InSingle)));
        }
        match shell_word_value(rest, QuoteState::InSingle) {
            Some(t) => {
                assert(seq![c] + (s.drop_first() + t) == s + t);
            },
            None => {},
        }
    }
}

/// Reading the quoted word back gives the text that was quoted: a POSIX shell
/// expands `shell_escape_single(s)` to exactly `s`, whatever `s` holds.
pub proof fn law_shell_quoting_round_trip(s: Seq<char>)
    ensures
        shell_word_value(shell_quoted(s), QuoteState::Outside) == Some(s),
{
    let w = shell_quoted(s);
    assert(w.drop_first() == escape_quotes(s) + seq!['\'']);
    assert(w[0] == '\'');
    lemma_single_run(s, seq!['\'']);
    let q = seq!['\''];
    assert(q.drop_first() == Seq::<char>::empty());
    assert(q[0] == '\'');
    assert(shell_word_value(q, QuoteState::InSingle) == shell_word_value(Seq::<char>::empty(), QuoteState::Outside));
    assert(s + Seq::<char>::empty() == s);
}

/// Quotes `s` as one POSIX shell word: wrapped in single quotes, each single quote
/// inside written as `'"'"'`.
pub fn shell_escape_single(s: &str) -> (r: String)
    ensures
        r@ == shell_quoted(s@),
{
    let mut out = String::new();
    push_char(&mut out, '\'');
    let mut i: usize = 0;
    let cs = chars_of(s);
    while i < cs.len()
        invariant
            i <= cs.len(),
            cs@ == s@,
            out@ == seq!['\''] + escape_quotes(cs@.take(i as int)),
        decreases cs.len() - i,
    {
        let c = cs[i];
        if c == '\'' {
            push_char(&mut out, '\'');
            push_char(&mut out, '"');
            push_char(&mut out, '\'');
            push_char(&mut out, '"');
            push_char(&mut out, '\'');
        } else {
            push_char(&mut out, c);
        }
        proof {
            assert(cs@.take(i + 1) == cs@.take(i as int) + seq![c]);
            lemma_escape_concat(cs@.take(i as int), seq![c]);
            assert(seq![c].drop_first() == Seq::<char>::empty());
            assert(escape_quotes(seq![c]) == quote_piece(c) + escape_quotes(Seq::<char>::empty()));
        }
        i = i + 1;
    }
    push_char(&mut out, '\'');
    assert(cs@.take(cs@.len() as int) == cs@);
    out
}

} // verus!
