use movie_db::detail::{detail_labels, watch_entry, MovieDetails, QueueEntry, Status};

fn details() -> MovieDetails {
    MovieDetails {
        id: 17,
        year: 1979,
        imdb: String::from("tt0078748"),
        youtube: String::from("LjLamj-b0I8"),
        summary: String::from("In space no one can hear you scream."),
    }
}

#[test]
fn labels_show_the_movie() {
    let labels = detail_labels("Alien", &details());
    assert_eq!(labels.title, "Alien");
    assert_eq!(labels.year, "1979");
    assert_eq!(labels.id, "17");
    assert_eq!(labels.imdb, "tt0078748");
    assert_eq!(labels.youtube, "LjLamj-b0I8");
    assert_eq!(labels.summary, "In space no one can hear you scream.");
}

#[test]
fn watch_queues_the_shown_movie_as_new() {
    let labels = detail_labels("Alien", &details());
    assert_eq!(watch_entry(&labels.id), Some(QueueEntry { movie_id: 17, status_id: Status::NEW }));
}

#[test]
fn watch_refuses_a_label_that_is_no_number() {
    assert_eq!(watch_entry(""), None);
    assert_eq!(watch_entry("seventeen"), None);
}

#[test]
fn status_ids() {
    assert_eq!((Status::NEW, Status::DOWNLOADING, Status::COMPLETE, Status::FAIL), (1, 2, 3, 4));
}
