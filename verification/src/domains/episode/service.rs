//! The lookups that the episode service runs, and what it makes of the rows
//! that come back.
use std::collections::HashMap;
use vstd::prelude::*;

use super::model::{episode_columns, Episode, Tables};
use crate::util::id::{hyphenated, uuid_string};
use crate::util::service::{column_list, select_by_key_query, select_by_key_text, EnumValues};

verus! {

broadcast use vstd::std_specs::hash::group_hash_axioms;

/// A lookup of episodes by one column: the materialized view that is keyed on
/// that column, the column, and the value sought.
#[derive(Clone, Copy, Debug, PartialEq, Eq, Structural)]
pub enum EpisodeFilter {
    Season(i32),
    Episode(i32),
    Year(i32),
    ShowId(i32),
}

impl EpisodeFilter {
    /// The table that the lookup reads.
    pub open spec fn spec_table(self) -> Tables {
        match self {
            EpisodeFilter::Season(_) => Tables::EpisodeBySeason,
            EpisodeFilter::Episode(_) => Tables::EpisodeByEpisode,
            EpisodeFilter::Year(_) => Tables::EpisodeByYear,
            EpisodeFilter::ShowId(_) => Tables::EpisodebyShowId,
        }
    }

    /// The column that the lookup compares.
    pub open spec fn spec_key(self) -> Seq<char> {
        match self {
            EpisodeFilter::Season(_) => "season"@,
            EpisodeFilter::Episode(_) => "episode"@,
            EpisodeFilter::Year(_) => "year"@,
            EpisodeFilter::ShowId(_) => "show_id"@,
        }
    }

    /// The value that the lookup binds.
    pub open spec fn spec_value(self) -> i32 {
        match self {
            EpisodeFilter::Season(v) => v,
            EpisodeFilter::Episode(v) => v,
            EpisodeFilter::Year(v) => v,
            EpisodeFilter::ShowId(v) => v,
        }
    }

    pub fn table(&self) -> (table: Tables)
        ensures
            table == self.spec_table(),
    {
        match self {
            EpisodeFilter::Season(_) => Tables::EpisodeBySeason,
            EpisodeFilter::Episode(_) => Tables::EpisodeByEpisode,
            EpisodeFilter::Year(_) => Tables::EpisodeByYear,
            EpisodeFilter::ShowId(_) => Tables::EpisodebyShowId,
        }
    }

    pub fn key(&self) -> (key: &'static str)
        ensures
            key@ == self.spec_key(),
    {
        match self {
            EpisodeFilter::Season(_) => "season",
            EpisodeFilter::Episode(_) => "episode",
            EpisodeFilter::Year(_) => "year",
            EpisodeFilter::ShowId(_) => "show_id",
        }
    }

    pub fn value(&self) -> (value: i32)
        ensures
            value == self.spec_value(),
    {
        match self {
            EpisodeFilter::Season(v) => *v,
            EpisodeFilter::Episode(v) => *v,
            EpisodeFilter::Year(v) => *v,
            EpisodeFilter::ShowId(v) => *v,
        }
    }

    /// The query that runs the lookup, with one value to bind.
    pub fn query(&self) -> (query: String)
        ensures
            query@ == select_by_key_text(
                column_list(episode_columns()),
                self.spec_table().spec_as_str(),
                self.spec_key(),
            ),
            query@ == "SELECT "@ + column_list(episode_columns()) + " FROM "@
                + self.spec_table().spec_as_str() + " WHERE "@ + self.spec_key() + " = ?"@,
    {
        let table = self.table();
        select_by_key_query::<Episode>(&table, self.key())
    }
}

/// The values bound for a lookup of episodes by their ids: each id in its
/// hyphenated text form, in order.
pub fn id_values(ids: &[u128]) -> (values: Vec<String>)
    ensures
        values.len() == ids.len(),
        forall|i: int| 0 <= i < ids.len() ==> #[trigger] values[i]@ == hyphenated(ids[i]),
{
    let mut values: Vec<String> = Vec::new();
    for i in 0..ids.len()
        invariant
            values.len() == i,
            forall|j: int| 0 <= j < i ==> #[trigger] values[j]@ == hyphenated(ids[j]),
    {
        values.push(uuid_string(ids[i]));
    }
    values
}

/// Episodes keyed by their id; where two share an id, the later one stands.
pub open spec fn episodes_by_id(episodes: Seq<Episode>) -> Map<u128, Episode>
    decreases episodes.len(),
{
    if episodes.len() == 0 {
        Map::empty()
    } else {
        episodes_by_id(episodes.drop_last()).insert(episodes.last().id, episodes.last())
    }
}

/// The episodes that a batch load found, keyed by their id.
pub fn index_by_id(episodes: Vec<Episode>) -> (index: HashMap<u128, Episode>)
    ensures
        index@ == episodes_by_id(episodes@),
        forall|k: u128|
            #[trigger] index@.contains_key(k) <==> exists|i: int|
                0 <= i < episodes@.len() && #[trigger] episodes@[i].id == k,
        forall|k: u128| #[trigger] index@.contains_key(k) ==> index@[k].id == k,
        forall|i: int|
            0 <= i < episodes@.len() && (forall|j: int|
                i < j < episodes@.len() ==> #[trigger] episodes@[j].id != episodes@[i].id) ==>
                #[trigger] index@[episodes@[i].id] == episodes@[i],
{
    let ghost all = episodes@;
    let mut index: HashMap<u128, Episode> = HashMap::new();
    for e in it: episodes.into_iter()
        invariant
            it.seq() == all,
            index@ == episodes_by_id(all.take(it.index() as int)),
    {
        proof {
            assert(all.take(it.index() + 1).drop_last() =~= all.take(it.index() as int));
        }
        let id = e.id;
        index.insert(id, e);
    }
    proof {
        assert(all.take(all.len() as int) =~= all);
        lemma_loaded_found_by_id(all);
    }
    index
}

/// A batch load finds each loaded episode under its own id and nothing else:
/// the keys are exactly the ids of the loaded episodes, every key holds an
/// episode with that id, and that episode is the last one loaded with it.
pub proof fn lemma_loaded_found_by_id(episodes: Seq<Episode>)
    ensures
        forall|k: u128|
            #[trigger] episodes_by_id(episodes).contains_key(k) <==> exists|i: int|
                0 <= i < episodes.len() && #[trigger] episodes[i].id == k,
        forall|k: u128| #[trigger]
            episodes_by_id(episodes).contains_key(k) ==> episodes_by_id(episodes)[k].id == k,
        forall|i: int|
            0 <= i < episodes.len() && (forall|j: int|
                i < j < episodes.len() ==> #[trigger] episodes[j].id != episodes[i].id) ==>
                #[trigger] episodes_by_id(episodes)[episodes[i].id] == episodes[i],
    decreases episodes.len(),
{
    if episodes.len() > 0 {
        let rest = episodes.drop_last();
        lemma_loaded_found_by_id(rest);
        let last = episodes.last();
        let m = episodes_by_id(episodes);
        assert(m == episodes_by_id(rest).insert(last.id, last));
        assert forall|k: u128| #[trigger] m.contains_key(k) implies exists|i: int|
            0 <= i < episodes.len() && #[trigger] episodes[i].id == k by {
            if k == last.id {
                assert(episodes[episodes.len() - 1].id == k);
            } else {
                let i = choose|i: int| 0 <= i < rest.len() && #[trigger] rest[i].id == k;
                assert(episodes[i] == rest[i]);
            }
        }
        assert forall|k: u128|
            (exists|i: int| 0 <= i < episodes.len() && #[trigger] episodes[i].id == k) implies
            #[trigger] m.contains_key(k) by {
            let i = choose|i: int| 0 <= i < episodes.len() && #[trigger] episodes[i].id == k;
            if i < rest.len() {
                assert(rest[i] == episodes[i]);
            }
        }
        assert forall|i: int|
            0 <= i < episodes.len() && (forall|j: int|
                i < j < episodes.len() ==> #[trigger] episodes[j].id != episodes[i].id) implies
                #[trigger] m[episodes[i].id] == episodes[i] by {
            if i < rest.len() {
                assert(rest[i] == episodes[i]);
                assert(episodes[episodes.len() - 1].id != episodes[i].id);
                assert forall|j: int| i < j < rest.len() implies #[trigger] rest[j].id != rest[i].id by {
                    assert(rest[j] == episodes[j]);
                }
            }
        }
    }
}

/// Each lookup reads the materialized view named after the column it
/// compares (`episode_by_` and the column), and binds the number it was
/// made with.
pub proof fn lemma_filter_reads_its_view(filter: EpisodeFilter)
    ensures
        filter.spec_table().spec_as_str() == "episode_by_"@ + filter.spec_key(),
        filter matches EpisodeFilter::Season(v) ==> filter.spec_key() == "season"@
            && filter.spec_value() == v,
        filter matches EpisodeFilter::Episode(v) ==> filter.spec_key() == "episode"@
            && filter.spec_value() == v,
        filter matches EpisodeFilter::Year(v) ==> filter.spec_key() == "year"@
            && filter.spec_value() == v,
        filter matches EpisodeFilter::ShowId(v) ==> filter.spec_key() == "show_id"@
            && filter.spec_value() == v,
{
    reveal_strlit("episode_by_");
    reveal_strlit("season");
    reveal_strlit("episode");
    reveal_strlit("year");
    reveal_strlit("show_id");
    reveal_strlit("episode_by_season");
    reveal_strlit("episode_by_episode");
    reveal_strlit("episode_by_year");
    reveal_strlit("episode_by_show_id");
    assert(filter.spec_table().spec_as_str() =~= "episode_by_"@ + filter.spec_key());
}

/// Different tables have different names, and the table of all episodes is
/// named after the model.
pub proof fn lemma_table_names_distinct(a: Tables, b: Tables)
    ensures
        a != b ==> a.spec_as_str() != b.spec_as_str(),
        Tables::Episode.spec_as_str() == "episode"@,
{
    reveal_strlit("episode");
    reveal_strlit("episode_by_season");
    reveal_strlit("episode_by_episode");
    reveal_strlit("episode_by_year");
    reveal_strlit("episode_by_show_id");
    if a != b && a.spec_as_str() == b.spec_as_str() {
        assert(a.spec_as_str().len() == b.spec_as_str().len());
        assert(a.spec_as_str()[11] == b.spec_as_str()[11]);
    }
}

} // verus!
