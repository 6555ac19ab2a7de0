//! The configuration source: a JSON object from project name to directory.

use std::collections::BTreeMap;
use vstd::prelude::*;
use crate::registry::{
    built_from, configs_of, DuplicateName, ProjectConfig, ProjectConfigView, ProjectRegistry,
};
use crate::text::pairs_of;

verus! {

#[verifier::external_type_specification]
#[verifier::external_body]
pub struct ExJsonError(serde_json::Error);

/// The table that a text holds when it is read as a JSON object whose members
/// are all strings: each member's name with its value, in ascending order of
/// the names, or `None` where the text is no such object.
pub uninterp spec fn json_table(text: Seq<char>) -> Option<Seq<(Seq<char>, Seq<char>)>>;

/// Reads a JSON object of strings with `serde_json::from_str`, into a map
/// ordered by its keys, and lists the map's entries in that order.
///
/// Nothing is proved of this call. The contract gives its result a name,
/// [`json_table`]: the call succeeds exactly where the text has a table, and
/// the pairs it returns are that table.
#[verifier::external_body]
fn read_json_table(text: &str) -> (read: Result<Vec<(String, String)>, serde_json::Error>)
    ensures
        match read {
            Ok(pairs) => json_table(text@) == Some(pairs_of(pairs@)),
            Err(_) => json_table(text@) is None,
        },
{
    let table: BTreeMap<String, String> = serde_json::from_str(text)?;
    Ok(table.into_iter().collect())
}

/// The projects that a table of pairs stands for: each pair is a project's
/// name and its path.
pub open spec fn entries_of(table: Seq<(Seq<char>, Seq<char>)>) -> Seq<ProjectConfigView> {
    Seq::new(table.len(), |i: int| ProjectConfigView { name: table[i].0, path: table[i].1 })
}

/// Why a configuration text gave no registry.
#[derive(Clone, Debug, PartialEq, Eq)]
pub enum ConfigError {
    /// The text is not a JSON object whose members are all strings.
    Malformed,
    /// A project name comes twice.
    Duplicate(DuplicateName),
}

/// What loading a registry gives, for the table that the text holds: no
/// table is `Malformed`; a table in which a name comes twice is `Duplicate`,
/// naming the first repeat; every other table is the registry of its
/// entries.
pub open spec fn loaded_from(
    table: Option<Seq<(Seq<char>, Seq<char>)>>,
    loaded: Result<ProjectRegistry, ConfigError>,
) -> bool {
    match loaded {
        Ok(registry) => table is Some && built_from(entries_of(table->0), Ok(registry)),
        Err(ConfigError::Malformed) => table is None,
        Err(ConfigError::Duplicate(duplicate)) => table is Some && built_from(
            entries_of(table->0),
            Err(duplicate),
        ),
    }
}

/// Builds the registry of a table of pairs, each a project's name and its
/// path.
pub fn registry_from_table(table: Vec<(String, String)>) -> (built: Result<
    ProjectRegistry,
    DuplicateName,
>)
    ensures
        built_from(entries_of(pairs_of(table@)), built),
{
    let ghost pairs = pairs_of(table@);
    let mut entries: Vec<ProjectConfig> = Vec::new();
    let mut at: usize = 0;
    while at < table.len()
        invariant
            pairs == pairs_of(table@),
            at <= table.len(),
            entries.len() == at,
            forall|i: int| 0 <= i < at ==> (#[trigger] entries[i])@ == entries_of(pairs)[i],
        decreases table.len() - at,
    {
        let name = table[at].0.clone();
        let path = table[at].1.clone();
        entries.push(ProjectConfig { name, path });
        at += 1;
    }
    assert(configs_of(entries@) =~= entries_of(pairs));
    ProjectRegistry::from_entries(entries)
}

/// Loads the registry from the text of the configuration source.
///
/// The JSON reader keeps one value for each member name, the last one in the
/// text, so a name that the text repeats reaches the registry once.
pub fn load_registry(text: &str) -> (loaded: Result<ProjectRegistry, ConfigError>)
    ensures
        loaded_from(json_table(text@), loaded),
{
    match read_json_table(text) {
        Err(_) => Err(ConfigError::Malformed),
        Ok(table) => match registry_from_table(table) {
            Ok(registry) => Ok(registry),
            Err(duplicate) => Err(ConfigError::Duplicate(duplicate)),
        },
    }
}

} // verus!
