//! The project registry: an immutable table from project name to directory.

use vstd::prelude::*;
use vstd::string::StringExecFns;

verus! {

/// Mathematical value of a [`ProjectConfig`].
pub struct ProjectConfigView {
    pub name: Seq<char>,
    pub path: Seq<char>,
}

/// One project: its name, and the directory that holds its compose
/// definition. Whether the directory exists is found out only when a command
/// runs in it.
#[derive(Clone, Debug, PartialEq, Eq)]
pub struct ProjectConfig {
    pub name: String,
    pub path: String,
}

impl View for ProjectConfig {
    type V = ProjectConfigView;

    open spec fn view(&self) -> ProjectConfigView {
        ProjectConfigView { name: self.name@, path: self.path@ }
    }
}

/// The values of a list of projects, in the list's order.
pub open spec fn configs_of(entries: Seq<ProjectConfig>) -> Seq<ProjectConfigView> {
    Seq::new(entries.len(), |i: int| entries[i]@)
}

/// The entry at `at` exists and bears `name`.
pub open spec fn named_at(entries: Seq<ProjectConfigView>, at: int, name: Seq<char>) -> bool {
    0 <= at < entries.len() && entries[at].name == name
}

/// The entry at `at` bears a name that an earlier entry bears too.
pub open spec fn repeats_earlier(entries: Seq<ProjectConfigView>, at: int) -> bool {
    exists|i: int| 0 <= i < at && #[trigger] named_at(entries, i, entries[at].name)
}

/// No two entries bear the same name.
pub open spec fn names_distinct(entries: Seq<ProjectConfigView>) -> bool {
    forall|at: int| 0 <= at < entries.len() ==> !#[trigger] repeats_earlier(entries, at)
}

/// `at` is the first entry that repeats an earlier name.
pub open spec fn first_repeat(entries: Seq<ProjectConfigView>, at: int) -> bool {
    &&& 0 <= at < entries.len()
    &&& repeats_earlier(entries, at)
    &&& forall|k: int| 0 <= k < at ==> !#[trigger] repeats_earlier(entries, k)
}

/// The table that a list of entries stands for: its names, each with the
/// path of an entry that bears it. Where the names are distinct there is one
/// such entry.
pub open spec fn table_of(entries: Seq<ProjectConfigView>) -> Map<Seq<char>, Seq<char>> {
    Map::new(
        |name: Seq<char>| exists|i: int| named_at(entries, i, name),
        |name: Seq<char>| entries[choose|i: int| named_at(entries, i, name)].path,
    )
}

/// Every entry of a list with distinct names is in the list's table, under
/// its own name and with its own path.
pub proof fn lemma_registered_projects_resolve(entries: Seq<ProjectConfigView>, at: int)
    requires
        names_distinct(entries),
        0 <= at < entries.len(),
    ensures
        table_of(entries).contains_key(entries[at].name),
        table_of(entries)[entries[at].name] == entries[at].path,
{
    let name = entries[at].name;
    assert(named_at(entries, at, name));
    let chosen = choose|i: int| named_at(entries, i, name);
    if chosen < at {
        assert(repeats_earlier(entries, at));
    } else if at < chosen {
        assert(named_at(entries, at, entries[chosen].name));
        assert(repeats_earlier(entries, chosen));
    }
}

/// A name that no entry bears is not in the table.
pub proof fn lemma_unregistered_names_absent(entries: Seq<ProjectConfigView>, name: Seq<char>)
    requires
        forall|i: int| 0 <= i < entries.len() ==> entries[i].name != name,
    ensures
        !table_of(entries).contains_key(name),
{
    assert forall|i: int| !named_at(entries, i, name) by {}
}

/// The error of [`ProjectRegistry::from_entries`]: the entry at `index` bears
/// `name`, which an earlier entry bears already.
#[derive(Clone, Debug, PartialEq, Eq)]
pub struct DuplicateName {
    pub name: String,
    pub index: usize,
}

/// The table of projects, built once and only read afterwards. No two of its
/// projects bear the same name.
#[derive(Debug)]
pub struct ProjectRegistry {
    entries: Vec<ProjectConfig>,
}

impl View for ProjectRegistry {
    type V = Map<Seq<char>, Seq<char>>;

    /// The table from each project's name to its path.
    closed spec fn view(&self) -> Map<Seq<char>, Seq<char>> {
        table_of(self.configs())
    }
}

/// What building a registry from `entries` gives. Where the names are
/// distinct it is a registry of those entries, whose table is theirs. Where a
/// name comes twice it is an error that names the first entry to repeat an
/// earlier one.
pub open spec fn built_from(
    entries: Seq<ProjectConfigView>,
    built: Result<ProjectRegistry, DuplicateName>,
) -> bool {
    match built {
        Ok(registry) => {
            &&& names_distinct(entries)
            &&& registry.configs() == entries
            &&& registry@ == table_of(entries)
        },
        Err(duplicate) => {
            &&& first_repeat(entries, duplicate.index as int)
            &&& duplicate.name@ == entries[duplicate.index as int].name
        },
    }
}

impl ProjectRegistry {
    #[verifier::type_invariant]
    spec fn names_are_distinct(self) -> bool {
        names_distinct(configs_of(self.entries@))
    }

    /// The projects, in the order in which they were given.
    pub closed spec fn configs(&self) -> Seq<ProjectConfigView> {
        configs_of(self.entries@)
    }

    /// Builds the registry from a list of projects. A list in which a name
    /// comes twice is rejected, and the error names the first entry that
    /// repeats an earlier one.
    pub fn from_entries(entries: Vec<ProjectConfig>) -> (built: Result<
        ProjectRegistry,
        DuplicateName,
    >)
        ensures
            built_from(configs_of(entries@), built),
    {
        let ghost configs = configs_of(entries@);
        let mut at: usize = 0;
        while at < entries.len()
            invariant
                configs == configs_of(entries@),
                at <= entries.len(),
                forall|k: int| 0 <= k < at ==> !#[trigger] repeats_earlier(configs, k),
            decreases entries.len() - at,
        {
            let mut before: usize = 0;
            while before < at
                invariant
                    configs == configs_of(entries@),
                    at < entries.len(),
                    before <= at,
                    forall|k: int| 0 <= k < at ==> !#[trigger] repeats_earlier(configs, k),
                    forall|i: int| 0 <= i < before ==> !#[trigger] named_at(
                        configs,
                        i,
                        configs[at as int].name,
                    ),
                decreases at - before,
            {
                if entries[before].name == entries[at].name {
                    let name = entries[at].name.clone();
                    assert(named_at(configs, before as int, configs[at as int].name));
                    assert(repeats_earlier(configs, at as int));
                    assert(first_repeat(configs, at as int));
                    return Err(DuplicateName { name, index: at });
                }
                before += 1;
            }
            at += 1;
        }
        Ok(ProjectRegistry { entries })
    }

    /// The number of projects.
    pub fn len(&self) -> (count: usize)
        ensures
            count == self.configs().len(),
    {
        self.entries.len()
    }

    /// Whether the registry holds no project.
    pub fn is_empty(&self) -> (empty: bool)
        ensures
            empty == (self.configs().len() == 0),
    {
        self.entries.len() == 0
    }

    /// The project at a position, in the order in which they were given.
    pub fn get(&self, at: usize) -> (found: Option<&ProjectConfig>)
        ensures
            match found {
                Some(config) => at < self.configs().len() && config@ == self.configs()[at as int],
                None => at >= self.configs().len(),
            },
    {
        if at < self.entries.len() {
            Some(&self.entries[at])
        } else {
            None
        }
    }

    /// Looks a project up by its name: the project that bears the name, or
    /// `None` where no project does.
    pub fn lookup(&self, name: &str) -> (found: Option<&ProjectConfig>)
        ensures
            match found {
                Some(config) => {
                    &&& self@.contains_key(name@)
                    &&& config.name@ == name@
                    &&& config.path@ == self@[name@]
                },
                None => !self@.contains_key(name@),
            },
    {
        proof {
            use_type_invariant(self);
        }
        let wanted = String::from_str(name);
        let ghost configs = self.configs();
        let mut at: usize = 0;
        while at < self.entries.len()
            invariant
                configs == configs_of(self.entries@),
                names_distinct(configs),
                wanted@ == name@,
                at <= self.entries.len(),
                forall|i: int| 0 <= i < at ==> !#[trigger] named_at(configs, i, name@),
            decreases self.entries.len() - at,
        {
            if self.entries[at].name == wanted {
                proof {
                    lemma_registered_projects_resolve(configs, at as int);
                }
                return Some(&self.entries[at]);
            }
            at += 1;
        }
        assert forall|i: int| !named_at(configs, i, name@) by {}
        None
    }

    /// Whether a project bears the name.
    pub fn contains(&self, name: &str) -> (yes: bool)
        ensures
            yes == self@.contains_key(name@),
    {
        self.lookup(name).is_some()
    }
}

/// What holds of every registry: no name comes twice, so each project is
/// found under its name with its own path, and no other name is found.
pub proof fn lemma_lookup_agrees_with_entries(entries: Seq<ProjectConfigView>, name: Seq<char>)
    requires
        names_distinct(entries),
    ensures
        table_of(entries).contains_key(name) <==> exists|i: int| named_at(entries, i, name),
        forall|i: int| #[trigger]
            named_at(entries, i, name) ==> table_of(entries)[name] == entries[i].path,
{
    assert forall|i: int| #[trigger] named_at(entries, i, name) implies table_of(entries)[name]
        == entries[i].path by {
        lemma_registered_projects_resolve(entries, i);
    }
}

} // verus!
