//! Splitting a chat message into a command name and a lazily tokenized
//! argument text.

use vstd::prelude::*;
use vstd::string::*;

use crate::text::{
    has_prefix, is_whitespace, is_ws, join_spaced, lemma_run_len, lemma_run_len_at,
    lemma_trail_ws_len_at, next_token,
    normalized, run_len, skip_run, starts_with, tokens, trim_end, trim_start,
};

verus! {

/// Cursor over the argument text of a command: hands out one
/// whitespace-delimited token at a time, and at any point the untouched rest.
#[derive(Debug, Clone, Copy)]
pub struct Arguments<'a> {
    rest: &'a str,
}

impl<'a> View for Arguments<'a> {
    type V = Seq<char>;

    /// The text not yet consumed by `next`, leading whitespace included.
    closed spec fn view(&self) -> Seq<char> {
        self.rest@
    }
}

impl<'a> Arguments<'a> {
    pub fn new(args_str: &'a str) -> (r: Self)
        ensures
            r@ == args_str@,
    {
        Arguments { rest: args_str }
    }

    /// The unconsumed text without its leading whitespace. Reading it
    /// changes nothing, so reading it twice gives the same text.
    pub fn remainder(&self) -> (r: &'a str)
        ensures
            r@ == trim_start(self@),
    {
        let n = self.rest.unicode_len();
        let i = skip_run(self.rest, 0, true);
        proof {
            assert(self.rest@.skip(0) =~= self.rest@);
        }
        self.rest.substring_char(i, n)
    }

    /// The next whitespace-delimited token, or `None` once only whitespace
    /// is left. The remainder moves past the token returned.
    pub fn next(&mut self) -> (r: Option<&'a str>)
        ensures
            match next_token(old(self)@) {
                None => r is None && final(self)@ == old(self)@,
                Some(p) => r is Some && r->0@ == p.0 && final(self)@ == p.1,
            },
    {
        let s = self.rest;
        let n = s.unicode_len();
        let i = skip_run(s, 0, true);
        proof {
            assert(s@.skip(0) =~= s@);
        }
        if i == n {
            return None;
        }
        let j = skip_run(s, i, false);
        proof {
            let t = trim_start(s@);
            assert(t =~= s@.skip(i as int));
            assert(t.take(j - i) =~= s@.subrange(i as int, j as int));
            assert(t.skip(j - i) =~= s@.subrange(j as int, n as int));
        }
        self.rest = s.substring_char(j, n);
        Some(s.substring_char(i, j))
    }
}

/// A message split into its command name and its argument text.
#[derive(Debug, PartialEq)]
pub struct ParsedCommand<'a> {
    pub command: &'a str,
    pub args_part: &'a str,
}

impl<'a> ParsedCommand<'a> {
    /// The argument text: all that follows the command name, without
    /// trailing whitespace.
    pub open spec fn args_text(&self) -> Seq<char> {
        self.args_part@
    }

    /// A fresh cursor over the argument text.
    pub fn arguments(&self) -> (r: Arguments<'a>)
        ensures
            r@ == self.args_text(),
    {
        Arguments::new(self.args_part)
    }
}

/// The command name and argument text of `message` under `prefix`: `None`
/// unless the message starts with the prefix and something other than
/// whitespace follows it; else the first token after the prefix and the
/// rest, trailing-trimmed.
pub open spec fn parse_spec(message: Seq<char>, prefix: Seq<char>) -> Option<
    (Seq<char>, Seq<char>),
> {
    if !has_prefix(message, prefix) {
        None
    } else {
        match next_token(message.skip(prefix.len() as int)) {
            None => None,
            Some(p) => Some((p.0, trim_end(p.1))),
        }
    }
}

/// Splits `message` into command name and argument text when it starts with
/// `prefix`. A bare prefix, or one followed only by whitespace, is no
/// command.
pub fn parse<'a>(message: &'a str, prefix: &str) -> (r: Option<ParsedCommand<'a>>)
    ensures
        match parse_spec(message@, prefix@) {
            None => r is None,
            Some(p) => r is Some && r->0.command@ == p.0 && r->0.args_text() == p.1,
        },
{
    if !starts_with(message, prefix) {
        return None;
    }
    let n = message.unicode_len();
    let m = prefix.unicode_len();
    let i = skip_run(message, m, true);
    let ghost u = message@.skip(m as int);
    proof {
        assert(trim_start(u) =~= message@.skip(i as int));
    }
    if i == n {
        return None;
    }
    let j = skip_run(message, i, false);
    let mut e = n;
    while e > j && is_whitespace(message.get_char(e - 1))
        invariant
            n == message@.len(),
            j <= e <= n,
            forall|k: int| e <= k < n ==> is_ws(#[trigger] message@[k]),
        decreases e,
    {
        e = e - 1;
    }
    proof {
        let t = trim_start(u);
        let rest = t.skip(j - i);
        assert(t.take(j - i) =~= message@.subrange(i as int, j as int));
        assert(rest =~= message@.subrange(j as int, n as int));
        assert forall|k: int| e - j <= k < rest.len() implies is_ws(#[trigger] rest[k]) by {
            assert(rest[k] == message@[j + k]);
        }
        if e > j {
            assert(rest[e - j - 1] == message@[e - 1]);
        }
        lemma_trail_ws_len_at(rest, e - j);
        assert(trim_end(rest) =~= message@.subrange(j as int, e as int));
    }
    let command = message.substring_char(i, j);
    let args_part = message.substring_char(j, e);
    Some(ParsedCommand { command, args_part })
}

/// A message that starts with the prefix and has something other than
/// whitespace after it is a command: its name is the first
/// whitespace-delimited token after the prefix, and its argument text is
/// what follows that token, trailing-trimmed.
pub proof fn lemma_parse_splits(message: Seq<char>, prefix: Seq<char>)
    requires
        has_prefix(message, prefix),
        exists|i: int| prefix.len() <= i < message.len() && !is_ws(#[trigger] message[i]),
    ensures
        ({
            let after = message.skip(prefix.len() as int);
            &&& parse_spec(message, prefix) is Some
            &&& parse_spec(message, prefix).unwrap().0 == tokens(after)[0]
            &&& parse_spec(message, prefix).unwrap().1 == trim_end(next_token(after).unwrap().1)
        }),
{
    let after = message.skip(prefix.len() as int);
    let i = choose|i: int| prefix.len() <= i < message.len() && !is_ws(#[trigger] message[i]);
    lemma_run_len(after, true);
    assert(after[i - prefix.len()] == message[i]);
    assert(run_len(after, true) < after.len());
    assert(trim_start(after).len() > 0);
}

/// Text that does not start with the prefix, or is the prefix followed by
/// nothing but whitespace, is no command.
pub proof fn lemma_parse_rejects(message: Seq<char>, prefix: Seq<char>)
    requires
        !has_prefix(message, prefix) || forall|i: int|
            prefix.len() <= i < message.len() ==> is_ws(#[trigger] message[i]),
    ensures
        parse_spec(message, prefix) is None,
{
    if has_prefix(message, prefix) {
        let after = message.skip(prefix.len() as int);
        assert forall|k: int| 0 <= k < after.len() implies is_ws(#[trigger] after[k]) by {
            assert(after[k] == message[k + prefix.len()]);
        }
        lemma_run_len_at(after, true, after.len() as int);
        assert(trim_start(after).len() == 0);
    }
}

/// The text left after `k` calls of `next` on a cursor over `s`; calls
/// after the last token change nothing.
pub open spec fn advance(s: Seq<char>, k: nat) -> Seq<char>
    decreases k,
{
    if k == 0 {
        s
    } else {
        match next_token(s) {
            None => s,
            Some(p) => advance(p.1, (k - 1) as nat),
        }
    }
}

/// The tokens handed out by `k` calls of `next` on a cursor over `s`.
pub open spec fn taken(s: Seq<char>, k: nat) -> Seq<Seq<char>>
    decreases k,
{
    if k == 0 {
        seq![]
    } else {
        match next_token(s) {
            None => seq![],
            Some(p) => seq![p.0] + taken(p.1, (k - 1) as nat),
        }
    }
}

/// After `k` calls of `next`, the cursor has handed out the first `k`
/// tokens (all of them, when there are fewer) and what is left holds
/// exactly the tokens after those.
pub proof fn lemma_advance_drops_tokens(s: Seq<char>, k: nat)
    ensures
        k <= tokens(s).len() ==> taken(s, k) == tokens(s).take(k as int) && tokens(advance(s, k))
            == tokens(s).skip(k as int),
        k > tokens(s).len() ==> taken(s, k) == tokens(s) && tokens(advance(s, k)).len() == 0,
    decreases k,
{
    if k == 0 {
        assert(tokens(s).take(0) =~= seq![]);
        assert(tokens(s).skip(0) =~= tokens(s));
    } else {
        match next_token(s) {
            None => {},
            Some(p) => {
                lemma_advance_drops_tokens(p.1, (k - 1) as nat);
                let t = tokens(s);
                assert(t == seq![p.0] + tokens(p.1));
                if k <= t.len() {
                    assert(t.take(k as int) =~= seq![p.0] + tokens(p.1).take(k - 1));
                    assert(t.skip(k as int) =~= tokens(p.1).skip(k - 1));
                } else {
                    assert(seq![p.0] + tokens(p.1) =~= t);
                }
            },
        }
    }
}

/// The tokens consumed by any number of `next` calls, followed by the
/// tokens of what is left, are the tokens of the whole argument text.
pub proof fn lemma_taken_then_rest(s: Seq<char>, k: nat)
    ensures
        taken(s, k) + tokens(advance(s, k)) == tokens(s),
    decreases k,
{
    if k == 0 {
        assert(taken(s, k) + tokens(s) =~= tokens(s));
    } else {
        match next_token(s) {
            None => {
                assert(taken(s, k) + tokens(s) =~= tokens(s));
            },
            Some(p) => {
                lemma_taken_then_rest(p.1, (k - 1) as nat);
                assert(taken(s, k) + tokens(advance(s, k)) =~= seq![p.0] + (taken(
                    p.1,
                    (k - 1) as nat,
                ) + tokens(advance(p.1, (k - 1) as nat))));
            },
        }
    }
}

/// Leading whitespace does not change the tokens.
pub proof fn lemma_tokens_trim_start(s: Seq<char>)
    ensures
        tokens(trim_start(s)) == tokens(s),
{
    lemma_run_len(s, true);
    let t = trim_start(s);
    lemma_run_len(t, true);
    if t.len() > 0 {
        assert(t[0] == s[run_len(s, true) as int]);
    }
    assert(trim_start(t) =~= t);
    assert(next_token(t) == next_token(s));
}

/// Joining two non-empty lists of tokens with single spaces puts one space
/// between the two joined halves.
pub proof fn lemma_join_spaced_append(a: Seq<Seq<char>>, b: Seq<Seq<char>>)
    requires
        a.len() > 0,
        b.len() > 0,
    ensures
        join_spaced(a + b) == join_spaced(a) + seq![' '] + join_spaced(b),
    decreases a.len(),
{
    if a.len() == 1 {
        assert((a + b).drop_first() =~= b);
        assert((a + b)[0] == a[0]);
    } else {
        lemma_join_spaced_append(a.drop_first(), b);
        assert((a + b).drop_first() =~= a.drop_first() + b);
        assert((a + b)[0] == a[0]);
        assert(join_spaced(a + b) =~= a[0] + seq![' '] + (join_spaced(a.drop_first()) + seq![' ']
            + join_spaced(b)));
    }
}

/// The tokens taken by any number of `next` calls, joined by single spaces
/// and followed by the final `remainder` (after one space, when both are
/// non-empty), give the argument text with its whitespace normalized. This
/// needs the remainder to be normalized itself: a run of several
/// whitespace characters inside it is handed back verbatim.
pub proof fn lemma_tokens_then_remainder(s: Seq<char>, k: nat)
    requires
        normalized(trim_start(advance(s, k))) == trim_start(advance(s, k)),
    ensures
        ({
            let rem = trim_start(advance(s, k));
            join_spaced(taken(s, k) + if rem.len() == 0 {
                seq![]
            } else {
                seq![rem]
            }) == normalized(s)
        }),
{
    let rest = advance(s, k);
    let rem = trim_start(rest);
    lemma_taken_then_rest(s, k);
    lemma_tokens_trim_start(rest);
    if rem.len() == 0 {
        assert(tokens(rest) =~= seq![]);
        assert(taken(s, k) + seq![] =~= tokens(s));
        assert(taken(s, k) =~= tokens(s));
    } else {
        lemma_run_len(rest, true);
        assert(rem[0] == rest[run_len(rest, true) as int]);
        assert(tokens(rest).len() > 0);
        if taken(s, k).len() == 0 {
            assert(taken(s, k) + seq![rem] =~= seq![rem]);
            assert(tokens(s) =~= tokens(rest));
        } else {
            lemma_join_spaced_append(taken(s, k), seq![rem]);
            lemma_join_spaced_append(taken(s, k), tokens(rest));
        }
    }
}

} // verus!
