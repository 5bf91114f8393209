use movie_notes::note::{CreateMovie, Movie};
use movie_notes::table::{MovieTable, StoreError};

fn payload(tmdb_id: i64, title: &str, poster: Option<&str>, date: Option<&str>) -> CreateMovie {
    CreateMovie {
        tmdb_id,
        title: title.to_string(),
        comment: format!("comment on {}", title),
        user_name: "ana".to_string(),
        poster_path: poster.map(|p| p.to_string()),
        release_date: date.map(|d| d.to_string()),
    }
}

fn same_fields(m: &Movie, p: &CreateMovie) -> bool {
    m.tmdb_id == p.tmdb_id
        && m.title == p.title
        && m.comment == p.comment
        && m.user_name == p.user_name
        && m.poster_path == p.poster_path
        && m.release_date == p.release_date
}

fn ids(notes: &[Movie]) -> Vec<i64> {
    notes.iter().map(|m| m.id).collect()
}

#[test]
fn create_echoes_fields_and_gives_fresh_ids() {
    let mut t = MovieTable::new();
    let p1 = payload(550, "Fight Club", Some("/poster.jpg"), Some("1999-10-15"));
    let p2 = payload(550, "Fight Club", Some("/poster.jpg"), Some("1999-10-15"));
    let a = t.add_movie(payload(550, "Fight Club", Some("/poster.jpg"), Some("1999-10-15"))).unwrap();
    let b = t.add_movie(payload(550, "Fight Club", Some("/poster.jpg"), Some("1999-10-15"))).unwrap();
    assert!(same_fields(&a, &p1));
    assert!(same_fields(&b, &p2));
    assert_eq!(a.id, 1);
    assert_eq!(b.id, 2);
    assert_ne!(a.id, b.id);
}

#[test]
fn ids_are_not_reused_after_delete() {
    let mut t = MovieTable::new();
    let a = t.add_movie(payload(1, "A", None, None)).unwrap();
    t.remove_movie(1);
    let b = t.add_movie(payload(1, "B", None, None)).unwrap();
    assert_eq!(a.id, 1);
    assert_eq!(b.id, 2);
}

#[test]
fn list_gives_all_notes_newest_first() {
    let mut t = MovieTable::new();
    let titles = ["Alien", "Brazil", "Casablanca", "Dune"];
    for (k, title) in titles.iter().enumerate() {
        t.add_movie(payload(100 + k as i64, title, None, None)).unwrap();
    }
    let listed = t.list_movies();
    assert_eq!(ids(&listed), vec![4, 3, 2, 1]);
    let listed_titles: Vec<&str> = listed.iter().map(|m| m.title.as_str()).collect();
    assert_eq!(listed_titles, vec!["Dune", "Casablanca", "Brazil", "Alien"]);
    assert_eq!(listed[0].tmdb_id, 103);
    assert_eq!(listed[3].tmdb_id, 100);
}

#[test]
fn list_of_empty_table_is_empty() {
    let t = MovieTable::new();
    assert!(t.list_movies().is_empty());
}

#[test]
fn delete_removes_exactly_matching_catalog_id() {
    let mut t = MovieTable::new();
    t.add_movie(payload(7, "Seven", None, None)).unwrap();
    t.add_movie(payload(8, "Eight", None, None)).unwrap();
    t.add_movie(payload(7, "Seven again", None, None)).unwrap();
    t.add_movie(payload(9, "Nine", Some("/nine.png"), None)).unwrap();
    t.remove_movie(7);
    let listed = t.list_movies();
    assert_eq!(ids(&listed), vec![4, 2]);
    assert!(listed.iter().all(|m| m.tmdb_id != 7));
    assert!(same_fields(&listed[0], &payload(9, "Nine", Some("/nine.png"), None)));
    assert!(same_fields(&listed[1], &payload(8, "Eight", None, None)));
}

#[test]
fn delete_matches_catalog_id_not_primary_key() {
    let mut t = MovieTable::new();
    t.add_movie(payload(42, "Answer", None, None)).unwrap();
    t.remove_movie(1);
    assert_eq!(ids(&t.list_movies()), vec![1]);
    t.remove_movie(42);
    assert!(t.list_movies().is_empty());
}

#[test]
fn delete_of_unknown_catalog_id_is_a_no_op() {
    let mut t = MovieTable::new();
    t.add_movie(payload(10, "Ten", Some("/ten.jpg"), Some("2001")) ).unwrap();
    t.add_movie(payload(11, "Eleven", None, None)).unwrap();
    let before = t.list_movies();
    t.remove_movie(999);
    let after = t.list_movies();
    assert_eq!(ids(&before), ids(&after));
    for (x, y) in before.iter().zip(after.iter()) {
        assert_eq!(x.title, y.title);
        assert_eq!(x.poster_path, y.poster_path);
        assert_eq!(x.release_date, y.release_date);
    }
}

#[test]
fn delete_on_empty_table_is_a_no_op() {
    let mut t = MovieTable::new();
    t.remove_movie(5);
    assert!(t.list_movies().is_empty());
}

#[test]
fn two_notes_same_catalog_id_both_deleted() {
    let mut t = MovieTable::new();
    t.add_movie(payload(603, "The Matrix", None, None)).unwrap();
    t.add_movie(payload(603, "Matrix, the", None, None)).unwrap();
    assert_eq!(t.list_movies().len(), 2);
    t.remove_movie(603);
    assert!(t.list_movies().is_empty());
}

#[test]
fn round_trip_keeps_fields_and_absent_options() {
    let mut t = MovieTable::new();
    t.add_movie(payload(1, "Other", Some("/o.jpg"), Some("1990"))).unwrap();
    let p = payload(27205, "Inception ✓ ünïcode", None, None);
    let created = t.add_movie(payload(27205, "Inception ✓ ünïcode", None, None)).unwrap();
    let listed = t.list_movies();
    let found: Vec<&Movie> = listed.iter().filter(|m| m.id == created.id).collect();
    assert_eq!(found.len(), 1);
    assert!(same_fields(found[0], &p));
    assert_eq!(found[0].poster_path, None);
    assert_eq!(found[0].release_date, None);
    assert_eq!(found[0].title.as_bytes(), p.title.as_bytes());
}

#[test]
fn table_starting_at_gives_that_id_first() {
    let mut t = MovieTable::starting_at(40);
    let a = t.add_movie(payload(3, "Late", None, None)).unwrap();
    assert_eq!(a.id, 40);
}

#[test]
fn create_fails_when_ids_are_exhausted() {
    let mut t = MovieTable::starting_at(i64::MAX - 1);
    let a = t.add_movie(payload(3, "Last", None, None)).unwrap();
    assert_eq!(a.id, i64::MAX - 1);
    let r = t.add_movie(payload(4, "One too many", None, None));
    assert_eq!(r.unwrap_err(), StoreError::IdsExhausted);
    assert_eq!(ids(&t.list_movies()), vec![i64::MAX - 1]);
}
