use vstd::prelude::*;

use crate::domains::episode::graphql::{EpisodeMutations, EpisodeQueries};

verus! {

/// The GraphQL top-level Query type
#[derive(Default)]
pub struct Query(pub EpisodeQueries);

/// The GraphQL top-level Mutation type
#[derive(Default)]
pub struct Mutation(pub EpisodeMutations);

} // verus!
