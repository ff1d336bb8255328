//! The repositories that the front end serves.

use crate::pr::{Repo, RepoModel};
use crate::ui::PipelineId;
use std::collections::HashSet;
use vstd::prelude::*;

verus! {

/// How a repository is served.
#[derive(Debug, Eq, PartialEq)]
pub struct RepoConfig {
    /// The pipeline that builds it.
    pub pipeline_id: PipelineId,
    /// For a repository of an organization, the teams that may write to it.
    pub teams_with_write: Option<HashSet<u32>>,
}

/// How a repository is served, with the teams as a set.
pub struct ConfigModel {
    pub pipeline_id: PipelineId,
    pub teams_with_write: Option<Set<u32>>,
}

/// A set of teams that may be missing.
pub open spec fn optional_set(teams: Option<HashSet<u32>>) -> Option<Set<u32>> {
    match teams {
        Some(t) => Some(t@),
        None => None,
    }
}

impl View for RepoConfig {
    type V = ConfigModel;

    open spec fn view(&self) -> ConfigModel {
        ConfigModel {
            pipeline_id: self.pipeline_id,
            teams_with_write: optional_set(self.teams_with_write),
        }
    }
}

/// The repositories that the front end serves, each with its configuration.
/// No repository stands in it twice.
#[derive(Debug)]
pub struct RepoTable {
    entries: Vec<(Repo, RepoConfig)>,
}

/// Whether entry `i` is for the given repository.
spec fn entry_for(entries: Seq<(Repo, RepoConfig)>, repo: RepoModel, i: int) -> bool {
    0 <= i < entries.len() && entries[i].0@ == repo
}

/// Whether no two entries are for one repository.
spec fn distinct(entries: Seq<(Repo, RepoConfig)>) -> bool {
    forall|i: int, j: int|
        0 <= i < j < entries.len() ==> (#[trigger] entries[i]).0@ != (#[trigger] entries[j]).0@
}

/// The entries as a map.
spec fn table(entries: Seq<(Repo, RepoConfig)>) -> Map<RepoModel, ConfigModel> {
    Map::new(
        |repo: RepoModel| exists|i: int| entry_for(entries, repo, i),
        |repo: RepoModel| entries[choose|i: int| entry_for(entries, repo, i)].1@,
    )
}

impl View for RepoTable {
    type V = Map<RepoModel, ConfigModel>;

    closed spec fn view(&self) -> Map<RepoModel, ConfigModel> {
        table(self.entries@)
    }
}

/// What the map holds for an entry is that entry's configuration.
proof fn entry_in_table(entries: Seq<(Repo, RepoConfig)>, i: int)
    requires
        distinct(entries),
        0 <= i < entries.len(),
    ensures
        table(entries).contains_key(entries[i].0@),
        table(entries)[entries[i].0@] == entries[i].1@,
{
    let repo = entries[i].0@;
    assert(entry_for(entries, repo, i));
    let j = choose|j: int| entry_for(entries, repo, j);
    assert(entry_for(entries, repo, j));
    assert(i == j);
}

impl RepoTable {
    #[verifier::type_invariant]
    spec fn well_formed(self) -> bool {
        distinct(self.entries@)
    }

    /// A table without repositories.
    pub fn new() -> (r: RepoTable)
        ensures
            r@ == Map::<RepoModel, ConfigModel>::empty(),
    {
        let r = RepoTable { entries: Vec::new() };
        assert(r@ =~= Map::<RepoModel, ConfigModel>::empty()) by {
            assert forall|repo: RepoModel| !r@.contains_key(repo) by {
                assert(forall|i: int| !entry_for(r.entries@, repo, i));
            }
        }
        r
    }

    /// Where the entry for a repository stands.
    fn position(&self, repo: &Repo) -> (r: Option<usize>)
        ensures
            match r {
                Some(i) => entry_for(self.entries@, repo@, i as int),
                None => forall|i: int| !entry_for(self.entries@, repo@, i),
            },
    {
        let mut i: usize = 0;
        while i < self.entries.len()
            invariant
                i <= self.entries.len(),
                forall|k: int| 0 <= k < i ==> !entry_for(self.entries@, repo@, k),
            decreases self.entries.len() - i,
        {
            if self.entries[i].0 == *repo {
                return Some(i);
            }
            i = i + 1;
        }
        None
    }

    /// How a repository is served, if it is.
    pub fn get(&self, repo: &Repo) -> (r: Option<&RepoConfig>)
        ensures
            match r {
                Some(config) => self@.contains_key(repo@) && config@ == self@[repo@],
                None => !self@.contains_key(repo@),
            },
    {
        proof {
            use_type_invariant(self);
        }
        match self.position(repo) {
            Some(i) => {
                proof {
                    entry_in_table(self.entries@, i as int);
                }
                Some(&self.entries[i].1)
            },
            None => None,
        }
    }

    /// Serves a repository from now on as `config` says, whether it was served
    /// before or not.
    pub fn insert(&mut self, repo: Repo, config: RepoConfig)
        ensures
            final(self)@ == old(self)@.insert(repo@, config@),
    {
        proof {
            use_type_invariant(&*self);
        }
        let at = self.position(&repo);
        let mut entries: Vec<(Repo, RepoConfig)> = Vec::new();
        std::mem::swap(&mut entries, &mut self.entries);
        let ghost before = entries@;
        let ghost key = repo@;
        let ghost value = config@;
        match at {
            Some(i) => {
                let entry = (repo, config);
                entries.set(i, entry);
            },
            None => {
                entries.push((repo, config));
            },
        }
        proof {
            let after = entries@;
            let place = match at {
                Some(i) => i as int,
                None => before.len() as int,
            };
            assert(after[place].0@ == key && after[place].1@ == value);
            assert(distinct(after)) by {
                assert forall|i: int, j: int| 0 <= i < j < after.len() implies (
                #[trigger] after[i]).0@ != (#[trigger] after[j]).0@ by {
                    if i != place {
                        assert(after[i] == before[i]);
                        assert(at is None ==> !entry_for(before, key, i));
                    }
                    if j != place {
                        assert(after[j] == before[j]);
                    }
                }
            }
            assert(table(after) =~= table(before).insert(key, value)) by {
                entry_in_table(after, place);
                assert forall|repo: RepoModel|
                    table(after).contains_key(repo) == table(before).insert(
                        key,
                        value,
                    ).contains_key(repo) by {
                    if exists|i: int| entry_for(after, repo, i) {
                        let i = choose|i: int| entry_for(after, repo, i);
                        if i != place {
                            assert(entry_for(before, repo, i));
                        }
                    }
                    if exists|i: int| entry_for(before, repo, i) {
                        let i = choose|i: int| entry_for(before, repo, i);
                        assert(entry_for(after, repo, i));
                    }
                }
                assert forall|repo: RepoModel| #[trigger]
                    table(after).contains_key(repo) implies table(after)[repo] == table(
                    before,
                ).insert(key, value)[repo] by {
                    let i = choose|i: int| entry_for(after, repo, i);
                    entry_in_table(after, i);
                    if i != place {
                        entry_in_table(before, i);
                    }
                }
            }
        }
        self.entries = entries;
    }

    /// A repository that the given pipeline builds, if there is one. Where one
    /// pipeline builds several, it is one of them.
    pub fn find_pipeline(&self, pipeline_id: PipelineId) -> (r: Option<&Repo>)
        ensures
            match r {
                Some(repo) => self@.contains_key(repo@) && self@[repo@].pipeline_id
                    == pipeline_id,
                None => forall|repo: RepoModel| #[trigger]
                    self@.contains_key(repo) ==> self@[repo].pipeline_id != pipeline_id,
            },
    {
        proof {
            use_type_invariant(self);
        }
        let mut found: Option<usize> = None;
        let mut i: usize = 0;
        while i < self.entries.len()
            invariant
                i <= self.entries.len(),
                match found {
                    Some(k) => k < self.entries.len() && self.entries@[k as int].1.pipeline_id
                        == pipeline_id,
                    None => forall|k: int|
                        0 <= k < i ==> (#[trigger] self.entries@[k]).1.pipeline_id != pipeline_id,
                },
            decreases self.entries.len() - i,
        {
            if self.entries[i].1.pipeline_id == pipeline_id {
                found = Some(i);
            }
            i = i + 1;
        }
        match found {
            Some(k) => {
                proof {
                    entry_in_table(self.entries@, k as int);
                }
                Some(&self.entries[k].0)
            },
            None => {
                assert forall|repo: RepoModel| #[trigger]
                    self@.contains_key(repo) implies self@[repo].pipeline_id != pipeline_id by {
                    let k = choose|k: int| entry_for(self.entries@, repo, k);
                    entry_in_table(self.entries@, k);
                }
                None
            },
        }
    }
}

/// A configuration as a model names the same pipeline, and has teams exactly if
/// the configuration has some, the same ones.
pub proof fn configurations_keep_their_teams(config: RepoConfig, team: u32)
    ensures
        config@.pipeline_id == config.pipeline_id,
        config@.teams_with_write is Some <==> config.teams_with_write is Some,
        config.teams_with_write is Some ==> config@.teams_with_write->0.contains(team)
            == config.teams_with_write->0@.contains(team),
{
}

} // verus!
