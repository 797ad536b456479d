//! Command definitions and the registry that holds them: names, aliases,
//! the published schema, and what runs a command.

use vstd::prelude::*;
use vstd::string::*;

use crate::text::str_eq;

verus! {

/// The kind of value a structured option takes.
#[derive(Debug, Clone, Copy, PartialEq, Eq, Structural)]
pub enum OptionKind {
    String,
    Integer,
    Boolean,
    Number,
    User,
    Channel,
    Role,
    Mentionable,
}

/// One typed parameter of a published command.
#[derive(Debug, Clone)]
pub struct OptionSchema {
    pub name: String,
    pub description: String,
    pub kind: OptionKind,
    pub required: bool,
}

/// What is published for a command: its name, description and options.
#[derive(Debug, Clone)]
pub struct CommandSchema {
    pub name: String,
    pub description: String,
    pub options: Vec<OptionSchema>,
}

/// A command: the name and aliases it answers to, its schema, and `E`, what
/// runs it.
pub struct CommandDefinition<E> {
    pub name: String,
    pub aliases: Vec<String>,
    pub schema: CommandSchema,
    pub executor: E,
}

impl<E> CommandDefinition<E> {
    /// The number of texts the command answers to in free text: its name
    /// and each alias.
    pub open spec fn num_keys(&self) -> int {
        self.aliases@.len() + 1int
    }

    /// Key `k`: the name for `0`, else alias `k - 1`.
    pub open spec fn key(&self, k: int) -> Seq<char> {
        if k == 0 {
            self.name@
        } else {
            self.aliases@[k - 1]@
        }
    }

    /// Whether a free-text invocation named `s` selects this command: `s`
    /// is its name or one of its aliases.
    pub open spec fn answers(&self, s: Seq<char>) -> bool {
        exists|k: int| 0 <= k < self.num_keys() && #[trigger] self.key(k) == s
    }

    /// A definition named after its schema.
    pub fn new(schema: CommandSchema, aliases: Vec<String>, executor: E) -> (r: Self)
        ensures
            r.name@ == schema.name@,
            r.aliases == aliases,
            r.schema == schema,
            r.executor == executor,
    {
        CommandDefinition { name: schema.name.clone(), aliases, schema, executor }
    }

    /// Whether `s` is this command's name or one of its aliases.
    pub fn answers_to(&self, s: &str) -> (r: bool)
        ensures
            r == self.answers(s@),
    {
        if str_eq(self.name.as_str(), s) {
            assert(self.key(0) == s@);
            return true;
        }
        let mut i: usize = 0;
        while i < self.aliases.len()
            invariant
                i <= self.aliases@.len(),
                self.name@ != s@,
                forall|k: int| 0 <= k < i + 1 ==> #[trigger] self.key(k) != s@,
            decreases self.aliases@.len() - i,
        {
            if str_eq(self.aliases[i].as_str(), s) {
                assert(self.key(i + 1) == s@);
                return true;
            }
            i = i + 1;
        }
        false
    }
}

/// Whether no text that `a` answers to is answered to by `b`.
pub open spec fn disjoint<E>(a: CommandDefinition<E>, b: CommandDefinition<E>) -> bool {
    forall|k: int| 0 <= k < a.num_keys() ==> !b.answers(#[trigger] a.key(k))
}

/// Why a definition was not registered.
#[derive(Debug, Clone)]
pub enum RegistryError {
    /// The name or alias is already taken by a registered command.
    DuplicateKey(String),
}

/// The ordered table of commands; no name or alias belongs to two of them.
pub struct CommandRegistry<E> {
    definitions: Vec<CommandDefinition<E>>,
}

impl<E> View for CommandRegistry<E> {
    type V = Seq<CommandDefinition<E>>;

    /// The definitions, in registration order.
    closed spec fn view(&self) -> Self::V {
        self.definitions@
    }
}

/// Whether no two definitions of `defs` share a name or alias.
pub open spec fn keys_unique<E>(defs: Seq<CommandDefinition<E>>) -> bool {
    forall|i: int, j: int|
        0 <= i < defs.len() && 0 <= j < defs.len() && i != j ==> disjoint(
            #[trigger] defs[i],
            #[trigger] defs[j],
        )
}

/// Whether `d` shares no name or alias with a definition of `defs`.
pub open spec fn fits<E>(defs: Seq<CommandDefinition<E>>, d: CommandDefinition<E>) -> bool {
    forall|j: int| 0 <= j < defs.len() ==> disjoint(d, #[trigger] defs[j])
}

/// Two definitions that share no key, seen from either side.
pub proof fn lemma_disjoint_symmetric<E>(a: CommandDefinition<E>, b: CommandDefinition<E>)
    requires
        disjoint(a, b),
    ensures
        disjoint(b, a),
{
    assert forall|m: int| 0 <= m < b.num_keys() implies !a.answers(#[trigger] b.key(m)) by {
        if a.answers(b.key(m)) {
            let k = choose|k: int| 0 <= k < a.num_keys() && #[trigger] a.key(k) == b.key(m);
            assert(b.answers(a.key(k)));
        }
    }
}

impl<E> CommandRegistry<E> {
    /// No name or alias belongs to two registered commands.
    pub open spec fn wf(&self) -> bool {
        keys_unique(self@)
    }

    pub fn new() -> (r: Self)
        ensures
            r.wf(),
            r@.len() == 0,
    {
        CommandRegistry { definitions: Vec::new() }
    }

    pub fn len(&self) -> (r: usize)
        ensures
            r == self@.len(),
    {
        self.definitions.len()
    }

    /// The definition at `i`, in registration order.
    pub fn get(&self, i: usize) -> (r: &CommandDefinition<E>)
        requires
            i < self@.len(),
        ensures
            *r == self@[i as int],
    {
        &self.definitions[i]
    }

    /// Index of a registered definition that answers to `key`, if any.
    fn find_owner(&self, key: &str) -> (r: Option<usize>)
        ensures
            r is None ==> forall|j: int|
                0 <= j < self@.len() ==> !(#[trigger] self@[j]).answers(key@),
            r matches Some(j) ==> j < self@.len() && self@[j as int].answers(key@),
    {
        let mut j: usize = 0;
        while j < self.definitions.len()
            invariant
                0 <= j <= self.definitions@.len(),
                forall|jj: int| 0 <= jj < j ==> !(#[trigger] self.definitions@[jj]).answers(key@),
            decreases self.definitions@.len() - j,
        {
            if self.definitions[j].answers_to(key) {
                return Some(j);
            }
            j = j + 1;
        }
        None
    }

    /// Adds `def` after the definitions there, unless one of its name and
    /// aliases is taken: then the registry is unchanged and the error names
    /// a taken one.
    pub fn register(&mut self, def: CommandDefinition<E>) -> (r: Result<(), RegistryError>)
        requires
            old(self).wf(),
        ensures
            final(self).wf(),
            fits(old(self)@, def) ==> r is Ok && final(self)@ == old(self)@.push(def),
            !fits(old(self)@, def) ==> r is Err && final(self)@ == old(self)@,
            r matches Err(RegistryError::DuplicateKey(key)) ==> exists|k: int|
                0 <= k < def.num_keys() && #[trigger] def.key(k) == key@ && exists|j: int|
                    0 <= j < old(self)@.len() && (#[trigger] old(self)@[j]).answers(key@),
    {
        let n = self.definitions.len();
        let m = def.aliases.len();
        if self.find_owner(def.name.as_str()).is_some() {
            assert(def.key(0) == def.name@);
            return Err(RegistryError::DuplicateKey(def.name.clone()));
        }
        assert forall|kk: int, j: int|
            0 <= kk < 1 && 0 <= j < n implies !(#[trigger] self.definitions@[j]).answers(
            #[trigger] def.key(kk),
        ) by {
            assert(def.key(kk) == def.name@);
            assert(self.definitions@[j] == self@[j]);
        }
        let mut i: usize = 0;
        while i < m
            invariant
                n == self.definitions@.len(),
                self.definitions@ == old(self).definitions@,
                keys_unique(self.definitions@),
                m == def.aliases@.len(),
                0 <= i <= m,
                forall|kk: int, j: int|
                    0 <= kk < i + 1 && 0 <= j < n ==> !(#[trigger] self.definitions@[j]).answers(
                        #[trigger] def.key(kk),
                    ),
            decreases m - i,
        {
            assert(def.key(i + 1) == def.aliases@[i as int]@);
            if self.find_owner(def.aliases[i].as_str()).is_some() {
                return Err(RegistryError::DuplicateKey(def.aliases[i].clone()));
            }
            i = i + 1;
        }
        proof {
            assert forall|j: int| 0 <= j < n implies disjoint(def, #[trigger] self.definitions@[j]) by {
                assert forall|kk: int| 0 <= kk < def.num_keys() implies !self.definitions@[j].answers(
                    #[trigger] def.key(kk),
                ) by {}
            }
            assert forall|j: int| 0 <= j < n implies disjoint(
                #[trigger] self.definitions@[j],
                def,
            ) by {
                lemma_disjoint_symmetric(def, self.definitions@[j]);
            }
        }
        self.definitions.push(def);
        proof {
            let d = self.definitions@;
            assert forall|i: int, j: int|
                0 <= i < d.len() && 0 <= j < d.len() && i != j implies disjoint(
                #[trigger] d[i],
                #[trigger] d[j],
            ) by {
                if i < n && j < n {
                    assert(d[i] == old(self).definitions@[i]);
                    assert(d[j] == old(self).definitions@[j]);
                }
            }
        }
        Ok(())
    }
}

} // verus!
