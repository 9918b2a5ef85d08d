//! The message parser: from the free text of a chat message to a command
//! name and a raw argument string.
//!
//! A message is split into whitespace-separated tokens. When the first
//! token opens with the mention sigil `@`, it is the bot's own name being
//! addressed and is discarded; the command name is then the second token,
//! or the sentinel `"missing command name"` when there is none. All
//! tokens after the command name, rejoined with single spaces, form the
//! raw argument string. A message without any token yields no invocation
//! at all; the event router skips such messages.

use vstd::prelude::*;

verus! {

/// The whitespace characters on which a message is split into tokens.
pub open spec fn is_space_char(c: char) -> bool {
    c == ' ' || c == '\t' || c == '\n' || c == '\r' || c == '\u{c}'
}

/// Whether `c` separates tokens.
pub fn is_space(c: char) -> (r: bool)
    ensures
        r == is_space_char(c),
{
    c == ' ' || c == '\t' || c == '\n' || c == '\r' || c == '\u{c}'
}

/// The length of the maximal non-whitespace prefix of `s`.
pub open spec fn word_len(s: Seq<char>) -> nat
    decreases s.len(),
{
    if s.len() == 0 || is_space_char(s[0]) {
        0
    } else {
        (1 + word_len(s.skip(1))) as nat
    }
}

/// The maximal non-whitespace prefix is never longer than the text.
pub proof fn lemma_word_len_le(s: Seq<char>)
    ensures
        word_len(s) <= s.len(),
    decreases s.len(),
{
    if s.len() == 0 || is_space_char(s[0]) {
    } else {
        lemma_word_len_le(s.skip(1));
    }
}

/// The whitespace-separated tokens of `s`, in order. Every token is a
/// maximal non-empty run of non-whitespace characters.
pub open spec fn tokens_of(s: Seq<char>) -> Seq<Seq<char>>
    decreases s.len(),
    via tokens_of_decreases
{
    if s.len() == 0 {
        Seq::empty()
    } else if is_space_char(s[0]) {
        tokens_of(s.skip(1))
    } else {
        seq![s.take(word_len(s) as int)] + tokens_of(s.skip(word_len(s) as int))
    }
}

#[via_fn]
proof fn tokens_of_decreases(s: Seq<char>) {
    if s.len() > 0 && !is_space_char(s[0]) {
        lemma_word_len_le(s);
    }
}

/// The tokens rejoined with a single space between neighbours.
pub open spec fn join_spaced(ts: Seq<Seq<char>>) -> Seq<char>
    decreases ts.len(),
{
    if ts.len() == 0 {
        Seq::empty()
    } else if ts.len() == 1 {
        ts[0]
    } else {
        ts[0] + seq![' '] + join_spaced(ts.skip(1))
    }
}

/// Appending one token on the right extends the joined text by a single
/// space and that token (or is that token alone, for an empty list).
pub proof fn lemma_join_spaced_push(ts: Seq<Seq<char>>, t: Seq<char>)
    ensures
        join_spaced(ts.push(t)) == if ts.len() == 0 {
            t
        } else {
            join_spaced(ts) + seq![' '] + t
        },
    decreases ts.len(),
{
    if ts.len() == 0 {
        assert(ts.push(t).len() == 1);
        assert(ts.push(t)[0] == t);
        assert(join_spaced(ts.push(t)) == t);
    } else if ts.len() == 1 {
        assert(ts.push(t)[0] == ts[0]);
        assert(ts.push(t).skip(1) =~= seq![t]);
        assert(join_spaced(seq![t]) == t);
        assert(join_spaced(ts.push(t)) == ts[0] + seq![' '] + t);
        assert(join_spaced(ts) == ts[0]);
    } else {
        assert(ts.push(t)[0] == ts[0]);
        assert(ts.push(t).skip(1) =~= ts.skip(1).push(t));
        lemma_join_spaced_push(ts.skip(1), t);
        assert(join_spaced(ts) == ts[0] + seq![' '] + join_spaced(ts.skip(1)));
        assert(join_spaced(ts.push(t)) == ts[0] + seq![' '] + (join_spaced(ts.skip(1)) + seq![' ']
            + t));
        assert(ts[0] + seq![' '] + (join_spaced(ts.skip(1)) + seq![' '] + t) =~= (ts[0]
            + seq![' '] + join_spaced(ts.skip(1))) + seq![' '] + t);
    }
}

/// Split `text` into its whitespace-separated tokens.
pub fn tokenize(text: &str) -> (toks: Vec<String>)
    ensures
        toks.deep_view() == tokens_of(text@),
{
    let n = text.unicode_len();
    let mut toks: Vec<String> = Vec::new();
    let mut i: usize = 0;
    proof {
        assert(text@.skip(0) =~= text@);
        assert(toks.deep_view() + tokens_of(text@) =~= tokens_of(text@));
    }
    while i < n
        invariant
            n == text@.len(),
            i <= n,
            tokens_of(text@) == toks.deep_view() + tokens_of(text@.skip(i as int)),
        decreases n - i,
    {
        let c = text.get_char(i);
        if is_space(c) {
            proof {
                assert(text@.skip(i as int).skip(1) =~= text@.skip(i as int + 1));
            }
            i += 1;
        } else {
            let ghost whole = text@.skip(i as int);
            proof {
                assert(whole[0] == text@[i as int]);
            }
            let mut j: usize = i;
            while j < n && !is_space(text.get_char(j))
                invariant
                    n == text@.len(),
                    i <= j <= n,
                    whole == text@.skip(i as int),
                    word_len(whole) == (j - i) + word_len(text@.skip(j as int)),
                decreases n - j,
            {
                proof {
                    assert(text@.skip(j as int)[0] == text@[j as int]);
                    assert(text@.skip(j as int).skip(1) =~= text@.skip(j as int + 1));
                }
                j += 1;
            }
            proof {
                if j < n {
                    assert(text@.skip(j as int)[0] == text@[j as int]);
                }
                assert(word_len(text@.skip(j as int)) == 0);
                assert(word_len(whole) >= 1);
                assert(word_len(whole) == j - i);
                assert(j > i);
            }
            let t = text.substring_char(i, j);
            let owned = t.to_owned();
            let ghost old_dv = toks.deep_view();
            toks.push(owned);
            proof {
                assert(toks.deep_view() =~= old_dv.push(t@));
                assert(whole.take((j - i) as int) =~= text@.subrange(i as int, j as int));
                assert(whole.skip((j - i) as int) =~= text@.skip(j as int));
                assert(tokens_of(whole) == seq![t@] + tokens_of(text@.skip(j as int)));
                assert(old_dv + (seq![t@] + tokens_of(text@.skip(j as int))) =~= old_dv.push(t@)
                    + tokens_of(text@.skip(j as int)));
            }
            i = j;
        }
    }
    proof {
        assert(text@.skip(n as int) =~= Seq::<char>::empty());
        assert(toks.deep_view() + tokens_of(text@.skip(n as int)) =~= toks.deep_view());
    }
    toks
}

/// Rejoin the tokens from position `start` onward with single spaces.
pub fn join_tokens(toks: &Vec<String>, start: usize) -> (r: String)
    requires
        start <= toks.len(),
    ensures
        r@ == join_spaced(toks.deep_view().skip(start as int)),
{
    let mut r = String::new();
    let mut k: usize = start;
    while k < toks.len()
        invariant
            start <= k <= toks.len(),
            r@ == join_spaced(toks.deep_view().subrange(start as int, k as int)),
        decreases toks.len() - k,
    {
        proof {
            reveal_strlit(" ");
            let dv = toks.deep_view();
            assert(dv.subrange(start as int, k as int).push(dv[k as int]) =~= dv.subrange(
                start as int,
                k as int + 1,
            ));
            lemma_join_spaced_push(dv.subrange(start as int, k as int), dv[k as int]);
            assert(" "@ =~= seq![' ']);
        }
        if k > start {
            r.append(" ");
        }
        r.append(toks[k].as_str());
        k += 1;
    }
    proof {
        assert(toks.deep_view().subrange(start as int, toks.len() as int) =~= toks.deep_view().skip(
            start as int,
        ));
    }
    r
}

/// One parsed request: a command name and the raw argument text, derived
/// from a single posted message.
pub struct ParsedInvocation {
    pub command_name: String,
    pub raw_args: String,
}

/// Whether a token opens with the mention sigil `@`.
pub open spec fn mention_prefixed(t: Seq<char>) -> bool {
    t.len() > 0 && t[0] == '@'
}

/// The command name that parsing `s` yields.
pub open spec fn parsed_command_of(s: Seq<char>) -> Seq<char>
    recommends
        tokens_of(s).len() > 0,
{
    let ts = tokens_of(s);
    if mention_prefixed(ts[0]) {
        if ts.len() >= 2 {
            ts[1]
        } else {
            "missing command name"@
        }
    } else {
        ts[0]
    }
}

/// The raw argument string that parsing `s` yields.
pub open spec fn parsed_args_of(s: Seq<char>) -> Seq<char>
    recommends
        tokens_of(s).len() > 0,
{
    let ts = tokens_of(s);
    if mention_prefixed(ts[0]) {
        if ts.len() >= 2 {
            join_spaced(ts.skip(2))
        } else {
            Seq::empty()
        }
    } else {
        join_spaced(ts.skip(1))
    }
}

/// Parse a message into a command name and raw arguments, or nothing when
/// the message holds no token at all.
pub fn parse(text: &str) -> (r: Option<ParsedInvocation>)
    ensures
        r is Some <==> tokens_of(text@).len() > 0,
        r matches Some(p) ==> p.command_name@ == parsed_command_of(text@) && p.raw_args@
            == parsed_args_of(text@),
{
    let toks = tokenize(text);
    if toks.len() == 0 {
        return Option::None;
    }
    let first_len = toks[0].as_str().unicode_len();
    let sigil = first_len > 0 && toks[0].as_str().get_char(0) == '@';
    proof {
        assert(toks.deep_view()[0] == toks@[0]@);
        assert(sigil == mention_prefixed(tokens_of(text@)[0]));
    }
    if sigil {
        if toks.len() >= 2 {
            let cmd = toks[1].clone();
            let args = join_tokens(&toks, 2);
            proof {
                assert(toks.deep_view()[1] == toks@[1]@);
            }
            Option::Some(ParsedInvocation { command_name: cmd, raw_args: args })
        } else {
            Option::Some(
                ParsedInvocation {
                    command_name: "missing command name".to_owned(),
                    raw_args: String::new(),
                },
            )
        }
    } else {
        let cmd = toks[0].clone();
        let args = join_tokens(&toks, 1);
        Option::Some(ParsedInvocation { command_name: cmd, raw_args: args })
    }
}

/// Stripping a leading mention token changes nothing in the parse: a
/// message whose tokens are those of `s1` without its opening mention
/// token parses to the same command name and the same argument string.
/// The law asks that the token after the mention is not itself
/// mention-prefixed, for it would then be stripped in turn.
pub proof fn lemma_mention_stripping(s1: Seq<char>, s2: Seq<char>)
    requires
        tokens_of(s1).len() >= 2,
        mention_prefixed(tokens_of(s1)[0]),
        !mention_prefixed(tokens_of(s1)[1]),
        tokens_of(s2) == tokens_of(s1).skip(1),
    ensures
        parsed_command_of(s1) == parsed_command_of(s2),
        parsed_args_of(s1) == parsed_args_of(s2),
{
    assert(tokens_of(s2)[0] == tokens_of(s1)[1]);
    assert(tokens_of(s1).skip(1).skip(1) =~= tokens_of(s1).skip(2));
}

} // verus!

