//! The episode part of the GraphQL schema: what the `episodes` query reads
//! of its input, and the input of the `createEpisode` mutation.
use vstd::prelude::*;

use super::service::EpisodeFilter;

verus! {

/// The episode queries of the schema.
#[derive(Default)]
pub struct EpisodeQueries;

/// The filters that the `episodes` query accepts; each one is optional.
#[derive(Clone, Copy, Debug)]
pub struct EpisodeInput {
    pub season: Option<i32>,
    pub episode: Option<i32>,
    pub year: Option<i32>,
    pub show_id: Option<i32>,
}

impl EpisodeInput {
    /// The one lookup that the input asks for: by year if a year is given,
    /// else by episode number, else by season, else by show id; none when no
    /// filter is given.
    pub open spec fn spec_filter(self) -> Option<EpisodeFilter> {
        if let Some(year) = self.year {
            Some(EpisodeFilter::Year(year))
        } else if let Some(episode) = self.episode {
            Some(EpisodeFilter::Episode(episode))
        } else if let Some(season) = self.season {
            Some(EpisodeFilter::Season(season))
        } else if let Some(show_id) = self.show_id {
            Some(EpisodeFilter::ShowId(show_id))
        } else {
            None
        }
    }
}

impl EpisodeQueries {
    /// The lookup that the `episodes` query runs for `input`; `None` means
    /// that the query answers with no episodes.
    pub fn episodes_filter(&self, input: &EpisodeInput) -> (filter: Option<EpisodeFilter>)
        ensures
            filter == input.spec_filter(),
            input.year is Some ==> filter == Some(EpisodeFilter::Year(input.year->Some_0)),
            input.year is None && input.episode is Some ==> filter == Some(
                EpisodeFilter::Episode(input.episode->Some_0),
            ),
            input.year is None && input.episode is None && input.season is Some ==> filter == Some(
                EpisodeFilter::Season(input.season->Some_0),
            ),
            input.year is None && input.episode is None && input.season is None
                && input.show_id is Some ==> filter == Some(
                EpisodeFilter::ShowId(input.show_id->Some_0),
            ),
            filter is None <==> (input.year is None && input.episode is None && input.season is None
                && input.show_id is None),
    {
        if let Some(year) = input.year {
            Some(EpisodeFilter::Year(year))
        } else if let Some(episode) = input.episode {
            Some(EpisodeFilter::Episode(episode))
        } else if let Some(season) = input.season {
            Some(EpisodeFilter::Season(season))
        } else if let Some(show_id) = input.show_id {
            Some(EpisodeFilter::ShowId(show_id))
        } else {
            None
        }
    }
}

/// The input of the `createEpisode` mutation.
#[derive(Clone, Debug)]
pub struct CreateEpisodeInput {
    pub show_name: String,
    pub show_id: i32,
    pub title: String,
    pub season: i32,
    pub episode: i32,
    pub year: i32,
}

/// The episode mutations of the schema.
#[derive(Default)]
pub struct EpisodeMutations;

/// The `episodes` query answers a given filter with a lookup: a year picks
/// the year lookup; an episode number with no year picks the episode lookup;
/// a season with neither picks the season lookup, whatever the show id; a
/// show id alone picks the show lookup; and only an input with no filter at
/// all gets no lookup.
pub proof fn lemma_filter_precedence(input: EpisodeInput)
    ensures
        input.year is Some ==> input.spec_filter() == Some(EpisodeFilter::Year(input.year->Some_0)),
        input.year is None && input.episode is Some ==> input.spec_filter() == Some(
            EpisodeFilter::Episode(input.episode->Some_0),
        ),
        input.year is None && input.episode is None && input.season is Some ==> input.spec_filter()
            == Some(EpisodeFilter::Season(input.season->Some_0)),
        input.year is None && input.episode is None && input.season is None && input.show_id is Some
            ==> input.spec_filter() == Some(EpisodeFilter::ShowId(input.show_id->Some_0)),
        input.spec_filter() is None <==> (input.year is None && input.episode is None
            && input.season is None && input.show_id is None),
{
}

} // verus!
