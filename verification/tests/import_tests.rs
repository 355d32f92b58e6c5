use movie_db::import::{
    import_action, import_next, import_start, is_valid_import_state, ImportAction, ImportEvent,
    ImportState, ImportStep,
};
use movie_db::yify::{Data, Movies, Torrents};

fn movie(title: &str, genres: &[&str], torrents: usize) -> Movies {
    Movies {
        id: 10,
        url: String::from("https://yts.example/movie"),
        imdb_code: String::from("tt1"),
        title: String::from(title),
        year: 2001,
        genres: genres.iter().map(|g| g.to_string()).collect(),
        description_full: String::from("A film."),
        yt_trailer_code: String::from("yt1"),
        medium_cover_image: String::from("https://img.example/c.png"),
        torrents: (0..torrents)
            .map(|i| Torrents {
                url: format!("https://t.example/{}", i),
                hash: format!("H{}", i),
                quality: String::from("1080p"),
            })
            .collect(),
    }
}

fn data(movies: Vec<Movies>) -> Data {
    Data { movie_count: movies.len() as i32, movies }
}

#[test]
fn empty_listing_finishes_at_once() {
    assert_eq!(import_start(&data(vec![])), ImportState::Finished);
}

#[test]
fn movie_without_genre_stops_the_run() {
    assert_eq!(import_start(&data(vec![movie("A", &[], 0)])), ImportState::MissingGenre { movie: 0 });
}

#[test]
fn full_run_over_one_movie() {
    let d = data(vec![movie("Alien", &["Horror"], 2)]);
    let mut state = import_start(&d);
    let mut names = Vec::new();
    let events = [
        ImportEvent::Failed,  // genre unknown
        ImportEvent::Id(7),   // genre added
        ImportEvent::Done,    // transaction open
        ImportEvent::Id(40),  // movie row
        ImportEvent::Done,    // torrent 0
        ImportEvent::Done,    // torrent 1
        ImportEvent::Done,    // cover fetched
        ImportEvent::Done,    // cover saved
        ImportEvent::Done,    // committed
    ];
    for event in events {
        assert!(is_valid_import_state(&d, &state));
        let action = import_action(&d, &state, "2024-05-01+02:00").unwrap();
        names.push(match &action {
            ImportAction::LookUpGenre { genre } => format!("look up {}", genre),
            ImportAction::InsertGenre { genre } => format!("add {}", genre),
            ImportAction::BeginTransaction => String::from("begin"),
            ImportAction::InsertDetail { row } => {
                assert_eq!(row.genre_id, 7);
                assert_eq!(row.date_added, "2024-05-01+02:00");
                format!("movie {}", row.title)
            }
            ImportAction::InsertTorrent { torrent } => {
                assert_eq!(torrent.movie_id, 40);
                format!("torrent {}", torrent.hash)
            }
            ImportAction::FetchImage { url } => format!("fetch {}", url),
            ImportAction::SaveImage { movie_id, file_name } => format!("save {} {}", movie_id, file_name),
            ImportAction::Commit => String::from("commit"),
        });
        state = import_next(&d, &state, event);
    }
    assert_eq!(state, ImportState::Finished);
    assert_eq!(
        names,
        vec![
            "look up Horror",
            "add Horror",
            "begin",
            "movie Alien",
            "torrent H0",
            "torrent H1",
            "fetch https://img.example/c.png",
            "save 40 Alien.png",
            "commit",
        ]
    );
    assert!(import_action(&d, &state, "d").is_none());
}

#[test]
fn duplicate_movie_is_skipped() {
    let d = data(vec![movie("A", &["Drama"], 0), movie("B", &["Drama"], 0)]);
    let mut state = import_start(&d);
    state = import_next(&d, &state, ImportEvent::Id(3));
    assert_eq!(state, ImportState::Working { movie: 0, step: ImportStep::BeginTransaction { genre_id: 3 } });
    state = import_next(&d, &state, ImportEvent::Done);
    state = import_next(&d, &state, ImportEvent::Failed);
    assert_eq!(state, ImportState::Working { movie: 1, step: ImportStep::LookUpGenre });
}

#[test]
fn movie_without_torrents_goes_to_its_cover() {
    let d = data(vec![movie("A", &["Drama"], 0)]);
    let state = ImportState::Working { movie: 0, step: ImportStep::InsertDetail { genre_id: 1 } };
    assert_eq!(
        import_next(&d, &state, ImportEvent::Id(9)),
        ImportState::Working { movie: 0, step: ImportStep::FetchImage { row_id: 9 } }
    );
}

#[test]
fn failures_stop_the_run() {
    let d = data(vec![movie("A", &["Drama"], 1)]);
    for step in [
        ImportStep::InsertGenre,
        ImportStep::BeginTransaction { genre_id: 1 },
        ImportStep::InsertTorrent { row_id: 2, index: 0 },
        ImportStep::FetchImage { row_id: 2 },
        ImportStep::SaveImage { row_id: 2 },
        ImportStep::Commit,
    ] {
        let state = ImportState::Working { movie: 0, step };
        assert_eq!(import_next(&d, &state, ImportEvent::Failed), ImportState::Failed);
    }
    assert_eq!(import_next(&d, &ImportState::Failed, ImportEvent::Done), ImportState::Failed);
}

#[test]
fn invalid_states_are_recognised() {
    let d = data(vec![movie("A", &["Drama"], 1)]);
    assert!(!is_valid_import_state(&d, &ImportState::Working { movie: 1, step: ImportStep::Commit }));
    assert!(!is_valid_import_state(
        &d,
        &ImportState::Working { movie: 0, step: ImportStep::InsertTorrent { row_id: 1, index: 1 } }
    ));
}
