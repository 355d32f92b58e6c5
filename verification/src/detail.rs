//! The movie detail dialog: what it shows of a stored movie and the entry
//! it adds to the watch queue.
use vstd::prelude::*;
use crate::migration::{spec_movie_changes, law_movie_change_versions};
use crate::decimal::{decimal_text, format_i64, parse_i64, spec_parse_i64, law_parse_reads_back_format};

verus! {

/// The ids of the rows of the `status` table.
#[non_exhaustive]
pub struct Status;

impl Status {
    pub const NEW: i64 = 1;
    pub const DOWNLOADING: i64 = 2;
    pub const COMPLETE: i64 = 3;
    pub const FAIL: i64 = 4;
}

/// The query for a stored movie, by title.
pub const DETAIL_QUERY: &'static str = "SELECT rating,year,imdb_url,youtube_url, description, id FROM movie WHERE title=?";

/// The statement that adds a movie to the watch queue.
pub const QUEUE_STATEMENT: &'static str = "INSERT INTO queue(movie_id, status_id) VALUES(?,?)";

/// What the dialog's watch label reads once the movie is queued.
pub const WATCHED_LABEL: &'static str = "Yes";

/// A stored movie as the dialog reads it, but for its rating, a
/// floating-point number that the caller shows itself.
#[derive(Debug)]
pub struct MovieDetails {
    pub id: i64,
    pub year: i64,
    pub imdb: String,
    pub youtube: String,
    pub summary: String,
}

/// The texts of the dialog's labels, links and summary.
#[derive(Debug)]
pub struct DetailLabels {
    pub title: String,
    pub year: String,
    pub imdb: String,
    pub youtube: String,
    pub summary: String,
    pub id: String,
}

/// A row of the watch queue.
#[derive(Debug, Clone, Copy, PartialEq, Eq)]
pub struct QueueEntry {
    pub movie_id: i64,
    pub status_id: i64,
}

/// `labels` show the movie `details` stored under `title`.
pub open spec fn shows_details(labels: DetailLabels, title: Seq<char>, details: MovieDetails) -> bool {
    &&& labels.title@ == title
    &&& labels.year@ == decimal_text(details.year as int)
    &&& labels.imdb@ == details.imdb@
    &&& labels.youtube@ == details.youtube@
    &&& labels.summary@ == details.summary@
    &&& labels.id@ == decimal_text(details.id as int)
}

/// The queue entry for the movie whose id label reads `id_label`: the movie
/// with that id, as a new entry; `None` where the label is not an `i64`.
pub open spec fn spec_watch_entry(id_label: Seq<char>) -> Option<QueueEntry> {
    match spec_parse_i64(id_label) {
        Some(id) => Some(QueueEntry { movie_id: id, status_id: Status::NEW }),
        None => None,
    }
}

/// What the dialog shows of the movie `details` stored under `title`.
pub fn detail_labels(title: &str, details: &MovieDetails) -> (labels: DetailLabels)
    ensures
        shows_details(labels, title@, *details),
{
    DetailLabels {
        title: title.to_owned(),
        year: format_i64(details.year),
        imdb: details.imdb.clone(),
        youtube: details.youtube.clone(),
        summary: details.summary.clone(),
        id: format_i64(details.id),
    }
}

/// The queue entry that the watch button adds, read off the id label.
pub fn watch_entry(id_label: &str) -> (entry: Option<QueueEntry>)
    ensures
        entry == spec_watch_entry(id_label@),
{
    match parse_i64(id_label) {
        Some(id) => Some(QueueEntry { movie_id: id, status_id: Status::NEW }),
        None => None,
    }
}

/// The dialog shows the stored texts as they are, and the year and the id
/// as decimal text that reads back as the year and the id.
pub proof fn law_labels_show_stored_values(labels: DetailLabels, title: Seq<char>, details: MovieDetails)
    requires
        shows_details(labels, title, details),
    ensures
        labels.title@ == title,
        labels.imdb@ == details.imdb@,
        labels.youtube@ == details.youtube@,
        labels.summary@ == details.summary@,
        spec_parse_i64(labels.year@) == Some(details.year),
        spec_parse_i64(labels.id@) == Some(details.id),
{
    law_parse_reads_back_format(details.year);
    law_parse_reads_back_format(details.id);
}

/// The watch button queues the movie that the dialog shows, as new: the id
/// label it reads back is the one the dialog wrote.
pub proof fn law_watch_queues_shown_movie(labels: DetailLabels, title: Seq<char>, details: MovieDetails)
    requires
        shows_details(labels, title, details),
    ensures
        spec_watch_entry(labels.id@) == Some(QueueEntry { movie_id: details.id, status_id: Status::NEW }),
{
    law_parse_reads_back_format(details.id);
}


/// The name of the status row with id `id`.
pub open spec fn status_name(id: i64) -> Seq<char> {
    if id == Status::NEW {
        "New"@
    } else if id == Status::DOWNLOADING {
        "Downloading"@
    } else if id == Status::COMPLETE {
        "Complete"@
    } else {
        "Error"@
    }
}

/// The last four schema changes add the statuses in the order of their ids,
/// the change with version `id + 26` (at index `id + 24`) adding the status named for `id`.
pub proof fn law_status_ids_follow_migrations(id: i64)
    requires
        Status::NEW <= id <= Status::FAIL,
    ensures
        Status::NEW == 1 && Status::DOWNLOADING == 2 && Status::COMPLETE == 3 && Status::FAIL == 4,
        spec_movie_changes()[id + 24].0 == id + 26,
        spec_movie_changes()[id + 24].1 == "INSERT INTO status(name) VALUES('"@ + status_name(id) + "')"@,
{
    reveal_strlit("INSERT INTO status(name) VALUES('");
    reveal_strlit("')");
    reveal_strlit("New");
    reveal_strlit("Downloading");
    reveal_strlit("Complete");
    reveal_strlit("Error");
    reveal_strlit("INSERT INTO status(name) VALUES('New')");
    reveal_strlit("INSERT INTO status(name) VALUES('Downloading')");
    reveal_strlit("INSERT INTO status(name) VALUES('Complete')");
    reveal_strlit("INSERT INTO status(name) VALUES('Error')");
    law_movie_change_versions();
    if id == Status::NEW {
        assert(spec_movie_changes()[25].1 =~= "INSERT INTO status(name) VALUES('"@ + status_name(id) + "')"@);
    } else if id == Status::DOWNLOADING {
        assert(spec_movie_changes()[26].1 =~= "INSERT INTO status(name) VALUES('"@ + status_name(id) + "')"@);
    } else if id == Status::COMPLETE {
        assert(spec_movie_changes()[27].1 =~= "INSERT INTO status(name) VALUES('"@ + status_name(id) + "')"@);
    } else {
        assert(spec_movie_changes()[28].1 =~= "INSERT INTO status(name) VALUES('"@ + status_name(id) + "')"@);
    }
}

} // verus!
