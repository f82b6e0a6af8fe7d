use sylled::domains::episode::graphql::{CreateEpisodeInput, EpisodeInput, EpisodeQueries};
use sylled::domains::episode::model::Episode;
use sylled::domains::episode::service::{id_values, index_by_id, EpisodeFilter};
use sylled::graphql::{Mutation, Query};

fn input(
    season: Option<i32>,
    episode: Option<i32>,
    year: Option<i32>,
    show_id: Option<i32>,
) -> EpisodeInput {
    EpisodeInput { season, episode, year, show_id }
}

fn create_input() -> CreateEpisodeInput {
    CreateEpisodeInput {
        show_name: "The Show".to_string(),
        show_id: 12,
        title: "Pilot".to_string(),
        season: 1,
        episode: 1,
        year: 2004,
    }
}

fn episode(id: u128, title: &str) -> Episode {
    Episode::with_id(
        CreateEpisodeInput { title: title.to_string(), ..create_input() },
        id,
    )
}

#[test]
fn year_comes_first() {
    let queries = EpisodeQueries;
    let all = input(Some(2), Some(3), Some(2010), Some(9));
    assert_eq!(queries.episodes_filter(&all), Some(EpisodeFilter::Year(2010)));
}

#[test]
fn episode_before_season_and_show() {
    let queries = EpisodeQueries;
    assert_eq!(
        queries.episodes_filter(&input(Some(2), Some(3), None, Some(9))),
        Some(EpisodeFilter::Episode(3))
    );
    assert_eq!(
        queries.episodes_filter(&input(Some(2), None, None, Some(9))),
        Some(EpisodeFilter::Season(2))
    );
    assert_eq!(
        queries.episodes_filter(&input(None, None, None, Some(9))),
        Some(EpisodeFilter::ShowId(9))
    );
}

#[test]
fn no_filter_no_lookup() {
    let queries = EpisodeQueries;
    assert_eq!(queries.episodes_filter(&input(None, None, None, None)), None);
}

#[test]
fn created_episode_keeps_input() {
    let e = Episode::from(create_input());
    assert_eq!(e.show_name, "The Show");
    assert_eq!(e.show_id, 12);
    assert_eq!(e.title, "Pilot");
    assert_eq!(e.season, 1);
    assert_eq!(e.episode, 1);
    assert_eq!(e.year, 2004);
    assert_eq!((e.id >> 76) & 0xf, 4);
    assert_eq!((e.id >> 62) & 3, 2);
    let text = &id_values(&[e.id])[0];
    assert_eq!(text.chars().nth(14), Some('4'));
    assert!("89ab".contains(text.chars().nth(19).unwrap()));
}

#[test]
fn created_episodes_get_fresh_ids() {
    let a = Episode::from(create_input());
    let b = Episode::from(create_input());
    assert_ne!(a.id, b.id);
}

#[test]
fn with_id_sets_the_id() {
    let e = Episode::with_id(create_input(), 77);
    assert_eq!(e.id, 77);
    assert_eq!(e.title, "Pilot");
}

#[test]
fn ids_as_text() {
    let ids = [0u128, u128::MAX, 0xa1a2a3a4b1b2c1c2d1d2d3d4d5d6d7d8];
    let values = id_values(&ids);
    assert_eq!(
        values,
        vec![
            "00000000-0000-0000-0000-000000000000".to_string(),
            "ffffffff-ffff-ffff-ffff-ffffffffffff".to_string(),
            "a1a2a3a4-b1b2-c1c2-d1d2-d3d4d5d6d7d8".to_string(),
        ]
    );
    assert!(id_values(&[]).is_empty());
}

#[test]
fn loaded_episodes_by_id() {
    let loaded = vec![episode(1, "a"), episode(2, "b"), episode(1, "c")];
    let index = index_by_id(loaded);
    assert_eq!(index.len(), 2);
    assert_eq!(index[&1].title, "c");
    assert_eq!(index[&1].id, 1);
    assert_eq!(index[&2].title, "b");
    assert!(!index.contains_key(&3));
    assert!(index_by_id(vec![]).is_empty());
}

#[test]
fn schema_roots() {
    let _query = Query::default();
    let _mutation = Mutation::default();
}
