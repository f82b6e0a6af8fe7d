//! The `Episode` model and the tables that hold it.
use vstd::prelude::*;

use super::graphql::CreateEpisodeInput;
use crate::util::id::{is_random_uuid, new_random_id};
use crate::util::service::{
    column_list, is_list_item, item_count, lemma_one_mark_per_column, placeholders, EnumValues, Model,
};

verus! {

/// The tables (and materialized views) that hold episodes.
#[derive(Clone, Copy, Debug, PartialEq, Eq, Structural)]
pub enum Tables {
    Episode,
    EpisodeBySeason,
    EpisodeByEpisode,
    EpisodeByYear,
    EpisodebyShowId,
}

impl EnumValues for Tables {
    open spec fn spec_as_str(&self) -> Seq<char> {
        match self {
            Tables::Episode => "episode"@,
            Tables::EpisodeBySeason => "episode_by_season"@,
            Tables::EpisodeByEpisode => "episode_by_episode"@,
            Tables::EpisodeByYear => "episode_by_year"@,
            Tables::EpisodebyShowId => "episode_by_show_id"@,
        }
    }

    fn as_str(&self) -> (name: &'static str) {
        match self {
            Tables::Episode => "episode",
            Tables::EpisodeBySeason => "episode_by_season",
            Tables::EpisodeByEpisode => "episode_by_episode",
            Tables::EpisodeByYear => "episode_by_year",
            Tables::EpisodebyShowId => "episode_by_show_id",
        }
    }
}

/// An episode of a show. `id` is the 128-bit value of the episode's UUID,
/// its bytes read in big-endian order.
#[derive(Clone, Debug)]
pub struct Episode {
    pub id: u128,
    pub show_name: String,
    pub show_id: i32,
    pub title: String,
    pub season: i32,
    pub episode: i32,
    pub year: i32,
}

/// The columns of the episode tables, in order.
pub open spec fn episode_columns() -> Seq<Seq<char>> {
    seq!["id"@, "show_name"@, "show_id"@, "title"@, "season"@, "episode"@, "year"@]
}

impl Model for Episode {
    type Tables = Tables;

    open spec fn spec_columns() -> Seq<Seq<char>> {
        episode_columns()
    }

    fn asterisk() -> (columns: &'static str) {
        let columns = "id, show_name, show_id, title, season, episode, year";
        proof {
            reveal_strlit("id, show_name, show_id, title, season, episode, year");
            reveal_strlit("id");
            reveal_strlit("show_name");
            reveal_strlit("show_id");
            reveal_strlit("title");
            reveal_strlit("season");
            reveal_strlit("episode");
            reveal_strlit("year");
            reveal_with_fuel(column_list, 8);
            assert(columns@ =~= column_list(episode_columns()));
        }
        columns
    }

    fn values() -> (marks: &'static str) {
        let marks = "?, ?, ?, ?, ?, ?, ?";
        proof {
            reveal_strlit("?, ?, ?, ?, ?, ?, ?");
            reveal_with_fuel(column_list, 8);
            assert(marks@ =~= placeholders(7));
        }
        marks
    }
}

/// Each episode column name can stand in a comma separated list, so the
/// episode insert query binds one value to each of its seven columns.
pub proof fn lemma_episode_insert_binds_every_column()
    ensures
        forall|i: int| 0 <= i < episode_columns().len() ==> is_list_item(#[trigger] episode_columns()[i]),
        item_count(column_list(episode_columns())) == 7,
        item_count(placeholders(7)) == 7,
{
    reveal_strlit("id");
    reveal_strlit("show_name");
    reveal_strlit("show_id");
    reveal_strlit("title");
    reveal_strlit("season");
    reveal_strlit("episode");
    reveal_strlit("year");
    let columns = episode_columns();
    assert forall|i: int| 0 <= i < columns.len() implies is_list_item(#[trigger] columns[i]) by {
        let name = columns[i];
        assert(name.len() > 0);
        if name.contains(',') {
            let k = choose|k: int| 0 <= k < name.len() && name[k] == ',';
            assert(name[k] != ',');
        }
    }
    lemma_one_mark_per_column(columns);
}

} // verus!

verus! {

impl Episode {
    /// The episode that `input` describes, under the id `id`.
    pub open spec fn spec_with_id(input: CreateEpisodeInput, id: u128) -> Episode {
        Episode {
            id,
            show_name: input.show_name,
            show_id: input.show_id,
            title: input.title,
            season: input.season,
            episode: input.episode,
            year: input.year,
        }
    }

    /// The episode that `input` describes, under the id `id`.
    pub fn with_id(input: CreateEpisodeInput, id: u128) -> (episode: Episode)
        ensures
            episode == Episode::spec_with_id(input, id),
            episode.id == id,
            episode.show_name == input.show_name,
            episode.show_id == input.show_id,
            episode.title == input.title,
            episode.season == input.season,
            episode.episode == input.episode,
            episode.year == input.year,
    {
        Episode {
            id,
            show_name: input.show_name,
            show_id: input.show_id,
            title: input.title,
            season: input.season,
            episode: input.episode,
            year: input.year,
        }
    }
}

/// A new episode for `input`, under a fresh random id.
impl From<CreateEpisodeInput> for Episode {
    fn from(input: CreateEpisodeInput) -> (episode: Episode)
        ensures
            episode == Episode::spec_with_id(input, episode.id),
            episode.show_name == input.show_name,
            episode.show_id == input.show_id,
            episode.title == input.title,
            episode.season == input.season,
            episode.episode == input.episode,
            episode.year == input.year,
            is_random_uuid(episode.id),
    {
        let id = new_random_id();
        Episode::with_id(input, id)
    }
}

/// `from` draws a random id, so no one result is owed for an input: the
/// contract of `from` above says what holds of every result.
impl vstd::std_specs::convert::FromSpecImpl<CreateEpisodeInput> for Episode {
    open spec fn obeys_from_spec() -> bool {
        false
    }

    open spec fn from_spec(v: CreateEpisodeInput) -> Episode {
        Episode::spec_with_id(v, choose|id: u128| is_random_uuid(id))
    }
}

/// An episode made from an input keeps every field of the input as it was
/// given, each in its own place, and takes the id it is given.
pub proof fn lemma_created_episode_keeps_input(input: CreateEpisodeInput, id: u128)
    ensures
        Episode::spec_with_id(input, id).id == id,
        Episode::spec_with_id(input, id).show_name == input.show_name,
        Episode::spec_with_id(input, id).show_id == input.show_id,
        Episode::spec_with_id(input, id).title == input.title,
        Episode::spec_with_id(input, id).season == input.season,
        Episode::spec_with_id(input, id).episode == input.episode,
        Episode::spec_with_id(input, id).year == input.year,
{
}

} // verus!
