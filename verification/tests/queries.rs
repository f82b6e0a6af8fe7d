use sylled::domains::episode::model::{Episode, Tables};
use sylled::domains::episode::service::EpisodeFilter;
use sylled::util::service::{
    collect_rows, id_lookup, insert_query, select_by_key_query, select_by_keys_query,
    single_row, EnumValues, Model,
};

const COLUMNS: &str = "id, show_name, show_id, title, season, episode, year";

#[test]
fn table_names() {
    assert_eq!(Tables::Episode.as_str(), "episode");
    assert_eq!(Tables::EpisodeBySeason.as_str(), "episode_by_season");
    assert_eq!(Tables::EpisodeByEpisode.as_str(), "episode_by_episode");
    assert_eq!(Tables::EpisodeByYear.as_str(), "episode_by_year");
    assert_eq!(Tables::EpisodebyShowId.as_str(), "episode_by_show_id");
}

#[test]
fn episode_columns_and_marks() {
    assert_eq!(Episode::asterisk(), COLUMNS);
    assert_eq!(Episode::values(), "?, ?, ?, ?, ?, ?, ?");
    let columns = Episode::asterisk().split(", ").count();
    let marks = Episode::values().split(", ").filter(|m| *m == "?").count();
    assert_eq!(columns, 7);
    assert_eq!(marks, columns);
}

#[test]
fn select_by_key_text() {
    let query = select_by_key_query::<Episode>(&Tables::EpisodeBySeason, "season");
    assert_eq!(
        query,
        "SELECT id, show_name, show_id, title, season, episode, year FROM episode_by_season WHERE season = ?"
    );
}

#[test]
fn select_by_keys_text() {
    let query = select_by_keys_query::<Episode>(&Tables::Episode, "id");
    assert_eq!(
        query,
        "SELECT id, show_name, show_id, title, season, episode, year FROM episode WHERE id IN ?"
    );
}

#[test]
fn insert_text() {
    let query = insert_query::<Episode>(&Tables::Episode);
    assert_eq!(
        query,
        "INSERT INTO episode (id, show_name, show_id, title, season, episode, year) VALUES (?, ?, ?, ?, ?, ?, ?)"
    );
}

#[test]
fn filters_name_their_view_and_column() {
    let cases = [
        (EpisodeFilter::Season(3), Tables::EpisodeBySeason, "season", 3),
        (EpisodeFilter::Episode(7), Tables::EpisodeByEpisode, "episode", 7),
        (EpisodeFilter::Year(1999), Tables::EpisodeByYear, "year", 1999),
        (EpisodeFilter::ShowId(-4), Tables::EpisodebyShowId, "show_id", -4),
    ];
    for (filter, table, key, value) in cases {
        assert_eq!(filter.table(), table);
        assert_eq!(filter.key(), key);
        assert_eq!(filter.value(), value);
        assert_eq!(
            filter.query(),
            format!("SELECT {} FROM {} WHERE {} = ?", COLUMNS, table.as_str(), key)
        );
    }
}

#[test]
fn year_filter_query() {
    assert_eq!(
        EpisodeFilter::Year(2001).query(),
        "SELECT id, show_name, show_id, title, season, episode, year FROM episode_by_year WHERE year = ?"
    );
}

#[test]
fn rows_that_parse_are_kept_in_order() {
    let rows: Result<Vec<Result<i32, String>>, String> = Ok(vec![
        Ok(1),
        Err("bad row".to_string()),
        Ok(3),
        Ok(2),
        Err("another".to_string()),
    ]);
    assert_eq!(collect_rows(rows), vec![1, 3, 2]);
}

#[test]
fn no_rows_gives_empty() {
    let rows: Result<Vec<Result<i32, String>>, String> = Err("rows expected".to_string());
    assert_eq!(collect_rows(rows), Vec::<i32>::new());
    let empty: Result<Vec<Result<i32, String>>, String> = Ok(vec![]);
    assert_eq!(collect_rows(empty), Vec::<i32>::new());
}

#[test]
fn single_row_found_or_not() {
    assert_eq!(single_row::<i32, String>(Ok(5)), Some(5));
    assert_eq!(single_row::<i32, String>(Err("no rows".to_string())), None);
}

#[test]
fn lookup_by_id_uses_hyphenated_form() {
    let (key, value) = id_lookup(0x67e5504410b1426f9247bb680e5fe0c8);
    assert_eq!(key, "id");
    assert_eq!(value, "67e55044-10b1-426f-9247-bb680e5fe0c8");
}
