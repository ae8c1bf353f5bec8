//! The in-band command grammar.
//!
//! A console message whose decoded text starts with the reserved prefix
//! `"> /hax"` is reinterpreted as a command line.  The remainder is split
//! into ASCII-whitespace-separated tokens; the recognized forms are the
//! single token `circle` and the two tokens `dump entities`.  Anything else,
//! including an empty remainder, is a parse error that the dispatcher answers
//! with a usage reply.

use vstd::prelude::*;

verus! {

/// A recognized in-band command.
#[derive(Clone, Copy, Debug, PartialEq, Eq, Structural)]
pub enum Command {
    /// Start a position animation around the local player.
    Circle,
    /// Traverse the entity chain once and report every entity.
    DumpEntities,
}

/// The text after the reserved prefix matched no recognized form.
#[derive(Clone, Copy, Debug, PartialEq, Eq, Structural)]
pub struct CommandParseError;

/// ASCII whitespace, as the tokenizer understands it: space, tab, line feed,
/// form feed, carriage return.
pub open spec fn is_space(b: u8) -> bool {
    b == 32 || b == 9 || b == 10 || b == 12 || b == 13
}

/// Length of the maximal non-whitespace prefix.
pub open spec fn word_len(s: Seq<u8>) -> nat
    decreases s.len(),
{
    if s.len() == 0 || is_space(s[0]) {
        0
    } else {
        1 + word_len(s.drop_first())
    }
}

pub proof fn lemma_word_len_le(s: Seq<u8>)
    ensures
        word_len(s) <= s.len(),
    decreases s.len(),
{
    if s.len() == 0 || is_space(s[0]) {
    } else {
        lemma_word_len_le(s.drop_first());
    }
}

/// The ASCII-whitespace-separated tokens of a byte string, in order.
pub open spec fn tokens_of(s: Seq<u8>) -> Seq<Seq<u8>>
    decreases s.len(),
    via tokens_of_decreases
{
    if s.len() == 0 {
        seq![]
    } else if is_space(s[0]) {
        tokens_of(s.drop_first())
    } else {
        seq![s.take(word_len(s) as int)] + tokens_of(s.skip(word_len(s) as int))
    }
}

#[via_fn]
proof fn tokens_of_decreases(s: Seq<u8>) {
    lemma_word_len_le(s);
    if s.len() > 0 && !is_space(s[0]) {
        assert(word_len(s) >= 1);
    }
}

/// A word runs exactly up to the first whitespace byte (or the end).
proof fn lemma_word_len_is(s: Seq<u8>, k: int)
    requires
        0 <= k <= s.len(),
        forall|m: int| 0 <= m < k ==> !is_space(s[m]),
        k == s.len() || is_space(s[k]),
    ensures
        word_len(s) == k,
    decreases k,
{
    if k == 0 {
    } else {
        assert(!is_space(s[0]));
        let t = s.drop_first();
        assert forall|m: int| 0 <= m < k - 1 implies !is_space(t[m]) by {
            assert(t[m] == s[m + 1]);
        }
        if k < s.len() {
            assert(t[k - 1] == s[k]);
        }
        lemma_word_len_is(t, k - 1);
    }
}

/// Splits a byte string into its ASCII-whitespace-separated tokens.
pub fn tokenize(s: &Vec<u8>) -> (toks: Vec<Vec<u8>>)
    ensures
        toks@.map_values(|v: Vec<u8>| v@) == tokens_of(s@),
{
    let mut toks: Vec<Vec<u8>> = Vec::new();
    let mut i: usize = 0;
    proof {
        assert(s@.skip(0) =~= s@);
        assert(toks@.map_values(|v: Vec<u8>| v@) =~= Seq::<Seq<u8>>::empty());
        assert(Seq::<Seq<u8>>::empty() + tokens_of(s@) =~= tokens_of(s@));
    }
    while i < s.len()
        invariant
            0 <= i <= s.len(),
            toks@.map_values(|v: Vec<u8>| v@) + tokens_of(s@.skip(i as int)) == tokens_of(s@),
        decreases s.len() - i,
    {
        if is_space_exec(s[i]) {
            proof {
                assert(s@.skip(i as int)[0] == s@[i as int]);
                assert(s@.skip(i as int).drop_first() =~= s@.skip(i as int + 1));
            }
            i = i + 1;
        } else {
            let ghost start = i as int;
            let mut word: Vec<u8> = Vec::new();
            word.push(s[i]);
            let mut j: usize = i + 1;
            while j < s.len() && !is_space_exec(s[j])
                invariant
                    start < j <= s.len(),
                    0 <= start < s.len(),
                    word@ == s@.subrange(start, j as int),
                    forall|m: int| start <= m < j ==> !is_space(s@[m]),
                decreases s.len() - j,
            {
                word.push(s[j]);
                proof {
                    assert(word@ =~= s@.subrange(start, j as int + 1));
                }
                j = j + 1;
            }
            proof {
                let suf = s@.skip(start);
                assert forall|m: int| 0 <= m < j - start implies !is_space(suf[m]) by {
                    assert(suf[m] == s@[start + m]);
                }
                if j < s.len() {
                    assert(suf[j - start] == s@[j as int]);
                }
                lemma_word_len_is(suf, j - start);
                assert(suf.take(j - start) =~= s@.subrange(start, j as int));
                assert(suf.skip(j - start) =~= s@.skip(j as int));
                assert(tokens_of(suf) == seq![s@.subrange(start, j as int)] + tokens_of(
                    s@.skip(j as int),
                ));
            }
            let ghost toks_pre = toks@.map_values(|v: Vec<u8>| v@);
            toks.push(word);
            proof {
                assert(toks@.map_values(|v: Vec<u8>| v@) =~= toks_pre.push(
                    s@.subrange(start, j as int),
                ));
                assert(toks_pre.push(s@.subrange(start, j as int)) + tokens_of(s@.skip(j as int))
                    =~= toks_pre + (seq![s@.subrange(start, j as int)] + tokens_of(
                    s@.skip(j as int),
                )));
            }
            i = j;
        }
    }
    proof {
        assert(s@.skip(i as int) =~= Seq::<u8>::empty());
        assert(toks@.map_values(|v: Vec<u8>| v@) + tokens_of(s@.skip(i as int)) =~= toks@.map_values(
            |v: Vec<u8>| v@,
        ));
    }
    toks
}

/// Executable mirror of `is_space`.
pub fn is_space_exec(b: u8) -> (r: bool)
    ensures
        r == is_space(b),
{
    b == 32 || b == 9 || b == 10 || b == 12 || b == 13
}

/// The token `circle`.
pub open spec fn circle_token() -> Seq<u8> {
    seq![99u8, 105u8, 114u8, 99u8, 108u8, 101u8]
}

/// The token `dump`.
pub open spec fn dump_token() -> Seq<u8> {
    seq![100u8, 117u8, 109u8, 112u8]
}

/// The token `entities`.
pub open spec fn entities_token() -> Seq<u8> {
    seq![101u8, 110u8, 116u8, 105u8, 116u8, 105u8, 101u8, 115u8]
}

/// What a command line's remainder parses to: `circle` and `dump entities`
/// are the only recognized forms.
pub open spec fn spec_parse(rest: Seq<u8>) -> Option<Command> {
    let toks = tokens_of(rest);
    if toks == seq![circle_token()] {
        Some(Command::Circle)
    } else if toks == seq![dump_token(), entities_token()] {
        Some(Command::DumpEntities)
    } else {
        None
    }
}

fn is_circle_word(w: &Vec<u8>) -> (r: bool)
    ensures
        r == (w@ == circle_token()),
{
    let r = w.len() == 6 && w[0] == 99 && w[1] == 105 && w[2] == 114 && w[3] == 99 && w[4] == 108
        && w[5] == 101;
    proof {
        if r {
            assert(w@ =~= circle_token());
        }
    }
    r
}

fn is_dump_word(w: &Vec<u8>) -> (r: bool)
    ensures
        r == (w@ == dump_token()),
{
    let r = w.len() == 4 && w[0] == 100 && w[1] == 117 && w[2] == 109 && w[3] == 112;
    proof {
        if r {
            assert(w@ =~= dump_token());
        }
    }
    r
}

fn is_entities_word(w: &Vec<u8>) -> (r: bool)
    ensures
        r == (w@ == entities_token()),
{
    let r = w.len() == 8 && w[0] == 101 && w[1] == 110 && w[2] == 116 && w[3] == 105 && w[4] == 116
        && w[5] == 105 && w[6] == 101 && w[7] == 115;
    proof {
        if r {
            assert(w@ =~= entities_token());
        }
    }
    r
}

/// Parses the text after the reserved prefix.  Returns the recognized
/// command, or an error exactly when no form matches.
pub fn parse_command(rest: &Vec<u8>) -> (r: Result<Command, CommandParseError>)
    ensures
        match r {
            Ok(c) => spec_parse(rest@) == Some(c),
            Err(_) => spec_parse(rest@) is None,
        },
{
    let toks = tokenize(rest);
    let ghost tv = toks@.map_values(|v: Vec<u8>| v@);
    if toks.len() == 1 && is_circle_word(&toks[0]) {
        proof {
            assert(tv =~= seq![circle_token()]);
        }
        Ok(Command::Circle)
    } else if toks.len() == 2 && is_dump_word(&toks[0]) && is_entities_word(&toks[1]) {
        proof {
            assert(tv =~= seq![dump_token(), entities_token()]);
        }
        Ok(Command::DumpEntities)
    } else {
        proof {
            assert(tv.len() == toks@.len());
            if tv == seq![circle_token()] {
                assert(tv.len() == 1);
                assert(tv[0] == toks@[0]@);
            }
            if tv == seq![dump_token(), entities_token()] {
                assert(tv.len() == 2);
                assert(tv[0] == toks@[0]@);
                assert(tv[1] == toks@[1]@);
            }
        }
        Err(CommandParseError)
    }
}

} // verus!
