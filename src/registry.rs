use vstd::prelude::*;

verus! {

/// One named command: the name a caller asks for, and the shell line it runs.
pub struct Command {
    name: String,
    command: String,
}

impl View for Command {
    type V = (Seq<char>, Seq<char>);

    closed spec fn view(&self) -> (Seq<char>, Seq<char>) {
        (self.name@, self.command@)
    }
}

impl Command {
    pub fn new(name: String, command: String) -> (r: Command)
        ensures
            r@ == (name@, command@),
    {
        Command { name, command }
    }

    pub fn name(&self) -> (r: &String)
        ensures
            r@ == self@.0,
    {
        &self.name
    }

    pub fn command(&self) -> (r: &String)
        ensures
            r@ == self@.1,
    {
        &self.command
    }
}

/// The names of a list of registry entries, in order.
pub open spec fn names_of(entries: Seq<(Seq<char>, Seq<char>)>) -> Seq<Seq<char>> {
    entries.map_values(|e: (Seq<char>, Seq<char>)| e.0)
}

/// The text of each string in a sequence.
pub open spec fn string_views(v: Seq<String>) -> Seq<Seq<char>> {
    v.map_values(|s: String| s@)
}

/// No two entries share a name.
pub open spec fn names_unique(entries: Seq<(Seq<char>, Seq<char>)>) -> bool {
    forall|a: int, b: int|
        0 <= a < b < entries.len() ==> #[trigger] entries[a].0 != #[trigger] entries[b].0
}

/// The shell line registered under `name`, if any (exact match, first entry).
pub open spec fn command_for(entries: Seq<(Seq<char>, Seq<char>)>, name: Seq<char>) -> Option<
    Seq<char>,
>
    decreases entries.len(),
{
    if entries.len() == 0 {
        None
    } else if entries[0].0 == name {
        Some(entries[0].1)
    } else {
        command_for(entries.drop_first(), name)
    }
}

/// A registry whose names are not unique was configured wrongly.
#[derive(Debug, PartialEq, Eq, Structural)]
pub enum ConfigurationError {
    DuplicateName,
}

/// The immutable registry of commands, in configuration order.
pub struct Commands(Vec<Command>);

impl View for Commands {
    type V = Seq<(Seq<char>, Seq<char>)>;

    closed spec fn view(&self) -> Seq<(Seq<char>, Seq<char>)> {
        self.0@.map_values(|c: Command| c@)
    }
}

proof fn lemma_command_for_suffix(entries: Seq<(Seq<char>, Seq<char>)>, i: int, name: Seq<char>)
    requires
        0 <= i < entries.len(),
        entries[i].0 != name,
    ensures
        command_for(entries.subrange(i, entries.len() as int), name) == command_for(
            entries.subrange(i + 1, entries.len() as int),
            name,
        ),
{
    let s = entries.subrange(i, entries.len() as int);
    assert(s.drop_first() =~= entries.subrange(i + 1, entries.len() as int));
}

impl Commands {
    /// Builds the registry from a list of commands; a name that occurs twice
    /// is rejected.
    pub fn from_list(list: Vec<Command>) -> (r: Result<Commands, ConfigurationError>)
        ensures
            r is Ok <==> names_unique(list@.map_values(|c: Command| c@)),
            r matches Ok(c) ==> c@ == list@.map_values(|c: Command| c@),
            r matches Err(e) ==> e == ConfigurationError::DuplicateName,
    {
        let ghost entries = list@.map_values(|c: Command| c@);
        let n = list.len();
        let mut i: usize = 0;
        while i < n
            invariant
                n == list.len(),
                entries == list@.map_values(|c: Command| c@),
                0 <= i <= n,
                forall|a: int, b: int|
                    0 <= a < b < i ==> #[trigger] entries[a].0 != #[trigger] entries[b].0,
            decreases n - i,
        {
            let mut j: usize = 0;
            while j < i
                invariant
                    n == list.len(),
                    entries == list@.map_values(|c: Command| c@),
                    0 <= j <= i < n,
                    forall|a: int| 0 <= a < j ==> #[trigger] entries[a].0 != entries[i as int].0,
                decreases i - j,
            {
                if list[j].name == list[i].name {
                    assert(entries[j as int].0 == entries[i as int].0);
                    return Err(ConfigurationError::DuplicateName);
                }
                j = j + 1;
            }
            i = i + 1;
        }
        Ok(Commands(list))
    }

    /// The shell line of the command named exactly `name`.
    pub fn resolve(&self, name: &String) -> (r: Option<&Command>)
        ensures
            match r {
                Some(c) => c@.0 == name@ && command_for(self@, name@) == Some(c@.1),
                None => command_for(self@, name@) is None,
            },
    {
        let n = self.0.len();
        let mut i: usize = 0;
        proof {
            assert(self@.subrange(0, self@.len() as int) =~= self@);
        }
        while i < n
            invariant
                n == self.0.len() == self@.len(),
                0 <= i <= n,
                command_for(self@, name@) == command_for(self@.subrange(i as int, n as int), name@),
            decreases n - i,
        {
            let c = &self.0[i];
            if c.name == *name {
                assert(self@[i as int] == c@);
                return Some(c);
            }
            proof {
                lemma_command_for_suffix(self@, i as int, name@);
            }
            i = i + 1;
        }
        None
    }

    /// The names of all commands, in registry order.
    pub fn names(&self) -> (r: Vec<String>)
        ensures
            string_views(r@) == names_of(self@),
    {
        let n = self.0.len();
        let mut out: Vec<String> = Vec::new();
        let mut i: usize = 0;
        while i < n
            invariant
                n == self.0.len() == self@.len(),
                0 <= i <= n,
                out.len() == i,
                string_views(out@) =~= names_of(self@).subrange(0, i as int),
            decreases n - i,
        {
            let name = self.0[i].name.clone();
            assert(self@[i as int] == self.0@[i as int]@);
            assert(name@ == names_of(self@)[i as int]);
            let ghost prev = out@;
            out.push(name);
            assert forall|k: int| 0 <= k <= i implies #[trigger] string_views(out@)[k] == names_of(self@)[k] by {
                if k < i {
                    assert(out@[k] == prev[k]);
                    assert(string_views(prev)[k] == names_of(self@).subrange(
                        0,
                        i as int,
                    )[k]);
                }
            }
            assert(string_views(out@) =~= names_of(self@).subrange(0, i + 1));
            i = i + 1;
        }
        assert(names_of(self@).subrange(0, n as int) =~= names_of(self@));
        out
    }
}

} // verus!
