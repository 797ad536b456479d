//! Selecting the command an inbound invocation names.

use vstd::prelude::*;

use crate::definition::{CommandDefinition, CommandRegistry, disjoint};
use crate::prefix_parser::{ParsedCommand, parse, parse_spec};
use crate::text::str_eq;

verus! {

/// Whether `i` is the first definition of `defs` that answers to `s` in
/// free text.
pub open spec fn is_first_answering<E>(defs: Seq<CommandDefinition<E>>, s: Seq<char>, i: int) -> bool {
    &&& 0 <= i < defs.len()
    &&& defs[i].answers(s)
    &&& forall|j: int| 0 <= j < i ==> !(#[trigger] defs[j]).answers(s)
}

/// The definition a free-text invocation named `s` runs: the first one,
/// in registration order, with that name or alias.
pub open spec fn prefix_lookup<E>(defs: Seq<CommandDefinition<E>>, s: Seq<char>) -> Option<int> {
    if exists|i: int| is_first_answering(defs, s, i) {
        Some(choose|i: int| is_first_answering(defs, s, i))
    } else {
        None
    }
}

/// Whether `i` is the first definition of `defs` named `s`.
pub open spec fn is_first_named<E>(defs: Seq<CommandDefinition<E>>, s: Seq<char>, i: int) -> bool {
    &&& 0 <= i < defs.len()
    &&& defs[i].name@ == s
    &&& forall|j: int| 0 <= j < i ==> (#[trigger] defs[j]).name@ != s
}

/// The definition a structured invocation named `s` runs: the first one
/// with exactly that name. Aliases play no part.
pub open spec fn slash_lookup<E>(defs: Seq<CommandDefinition<E>>, s: Seq<char>) -> Option<int> {
    if exists|i: int| is_first_named(defs, s, i) {
        Some(choose|i: int| is_first_named(defs, s, i))
    } else {
        None
    }
}

/// What to do with a chat message.
pub enum PrefixDispatch<'a> {
    /// Not a command: from an automated author, or not a prefixed command.
    Ignored,
    /// A prefixed command that no definition answers to.
    Unknown(&'a str),
    /// Run definition `0` on the parsed command.
    Run(usize, ParsedCommand<'a>),
}

impl<E> CommandRegistry<E> {
    /// The definition a free-text invocation named `name` runs, if any.
    pub fn find_prefix(&self, name: &str) -> (r: Option<usize>)
        ensures
            match r {
                None => prefix_lookup(self@, name@) is None,
                Some(i) => prefix_lookup(self@, name@) == Some(i as int),
            },
    {
        let n = self.len();
        let mut i: usize = 0;
        while i < n
            invariant
                n == self@.len(),
                i <= n,
                forall|j: int| 0 <= j < i ==> !(#[trigger] self@[j]).answers(name@),
            decreases n - i,
        {
            if self.get(i).answers_to(name) {
                assert(is_first_answering(self@, name@, i as int));
                proof {
                    let c = choose|k: int| is_first_answering(self@, name@, k);
                    if c < i {
                        assert(!self@[c].answers(name@));
                    } else if c > i {
                        assert(!self@[i as int].answers(name@));
                    }
                }
                return Some(i);
            }
            i = i + 1;
        }
        assert forall|k: int| !is_first_answering(self@, name@, k) by {
            if 0 <= k < n {
                assert(!self@[k].answers(name@));
            }
        }
        None
    }

    /// The definition a structured invocation named `name` runs, if any.
    pub fn find_slash(&self, name: &str) -> (r: Option<usize>)
        ensures
            match r {
                None => slash_lookup(self@, name@) is None,
                Some(i) => slash_lookup(self@, name@) == Some(i as int),
            },
    {
        let n = self.len();
        let mut i: usize = 0;
        while i < n
            invariant
                n == self@.len(),
                i <= n,
                forall|j: int| 0 <= j < i ==> (#[trigger] self@[j]).name@ != name@,
            decreases n - i,
        {
            if str_eq(self.get(i).name.as_str(), name) {
                assert(is_first_named(self@, name@, i as int));
                proof {
                    let c = choose|k: int| is_first_named(self@, name@, k);
                    if c < i {
                        assert(self@[c].name@ != name@);
                    } else if c > i {
                        assert(self@[i as int].name@ != name@);
                    }
                }
                return Some(i);
            }
            i = i + 1;
        }
        assert forall|k: int| !is_first_named(self@, name@, k) by {
            if 0 <= k < n {
                assert(self@[k].name@ != name@);
            }
        }
        None
    }

    /// What a chat message asks for: nothing when its author is automated
    /// or it is no prefixed command; else the definition its command name
    /// selects, or `Unknown` with that name when none does.
    pub fn route_prefix<'a>(&self, message: &'a str, prefix: &str, author_is_bot: bool) -> (r:
        PrefixDispatch<'a>)
        ensures
            author_is_bot ==> r is Ignored,
            !author_is_bot ==> match parse_spec(message@, prefix@) {
                None => r is Ignored,
                Some(p) => match prefix_lookup(self@, p.0) {
                    None => r matches PrefixDispatch::Unknown(name) && name@ == p.0,
                    Some(i) => r matches PrefixDispatch::Run(k, pc) && k == i && pc.command@
                        == p.0 && pc.args_text() == p.1,
                },
            },
    {
        if author_is_bot {
            return PrefixDispatch::Ignored;
        }
        match parse(message, prefix) {
            None => PrefixDispatch::Ignored,
            Some(pc) => match self.find_prefix(pc.command) {
                None => PrefixDispatch::Unknown(pc.command),
                Some(i) => PrefixDispatch::Run(i, pc),
            },
        }
    }

    /// The definition a structured invocation named `name` runs, if any.
    pub fn route_slash(&self, name: &str) -> (r: Option<usize>)
        ensures
            match r {
                None => slash_lookup(self@, name@) is None,
                Some(i) => slash_lookup(self@, name@) == Some(i as int),
            },
    {
        self.find_slash(name)
    }
}

/// In a registry where names and aliases are unique, a free-text
/// invocation of any name or alias of a registered command runs that
/// command.
pub proof fn lemma_every_key_routes_home<E>(reg: &CommandRegistry<E>, i: int, key: Seq<char>)
    requires
        reg.wf(),
        0 <= i < reg@.len(),
        reg@[i].answers(key),
    ensures
        prefix_lookup(reg@, key) == Some(i),
{
    let defs = reg@;
    assert forall|j: int| 0 <= j < i implies !(#[trigger] defs[j]).answers(key) by {
        assert(disjoint(defs[i], defs[j]));
        let k = choose|k: int| 0 <= k < defs[i].num_keys() && #[trigger] defs[i].key(k) == key;
        assert(!defs[j].answers(defs[i].key(k)));
    }
    assert(is_first_answering(defs, key, i));
    let c = choose|k: int| is_first_answering(defs, key, k);
    if c != i {
        assert(disjoint(defs[i], defs[c]));
        let k = choose|k: int| 0 <= k < defs[i].num_keys() && #[trigger] defs[i].key(k) == key;
        assert(!defs[c].answers(defs[i].key(k)));
    }
}

/// In a registry where names and aliases are unique, a structured
/// invocation of a registered command's name runs that command.
pub proof fn lemma_name_routes_home<E>(reg: &CommandRegistry<E>, i: int)
    requires
        reg.wf(),
        0 <= i < reg@.len(),
    ensures
        slash_lookup(reg@, reg@[i].name@) == Some(i),
{
    let defs = reg@;
    let s = defs[i].name@;
    assert(defs[i].key(0) == s);
    assert forall|j: int| 0 <= j < defs.len() && j != i implies (#[trigger] defs[j]).name@ != s by {
        assert(disjoint(defs[i], defs[j]));
        assert(!defs[j].answers(defs[i].key(0)));
        if defs[j].name@ == s {
            assert(defs[j].key(0) == s);
        }
    }
    assert(is_first_named(defs, s, i));
    let c = choose|k: int| is_first_named(defs, s, k);
    assert(c == i);
}

} // verus!
