//! An import run: the listed movies are stored one after another, each in a
//! transaction of its own. The run is a state machine: the caller performs
//! the action that a state asks for and hands back what came of it.
use vstd::prelude::*;
use crate::yify::{Data, Movies, Torrents};
use crate::images::{image_extension, image_file_name, spec_image_extension};

verus! {

/// The query for the id of a genre, by name.
pub const GENRE_QUERY: &'static str = "SELECT id from genre where name=?";

/// The statement that adds a genre.
pub const INSERT_GENRE_STATEMENT: &'static str = "INSERT INTO genre(name) VALUES(1?)";

/// The statement that adds a movie; its parameters are those of a
/// [`MovieRow`] with the rating sixth.
pub const INSERT_MOVIE_STATEMENT: &'static str = "INSERT INTO movie(yify_id,genre_id,title,year,\n                       imdb_url,rating,description,youtube_url,date_added) VALUES(?1,?2,?3,?4,?5,?6,?7,?8,?9)";

/// The statement that adds a torrent of a movie.
pub const INSERT_TORRENT_STATEMENT: &'static str = "INSERT into torrent(movie_id, link,hash, quality) VALUES(?1,?2,?3,?4)";

/// The statement that records where a movie's cover was saved.
pub const INSERT_IMAGE_STATEMENT: &'static str = "INSERT INTO image(movie_id,path) VALUES(?1,?2)";

/// The values of a new row of the `movie` table, but for the rating.
#[derive(Debug)]
pub struct MovieRow {
    pub yify_id: i32,
    pub genre_id: i64,
    pub title: String,
    pub year: i32,
    pub imdb_url: String,
    pub description: String,
    pub youtube_url: String,
    pub date_added: String,
}

/// The values of a new row of the `torrent` table.
#[derive(Debug)]
pub struct TorrentRow {
    pub movie_id: i64,
    pub link: String,
    pub hash: String,
    pub quality: String,
}

/// `row` stores `movie` under the genre `genre_id`, added on `date_added`.
pub open spec fn is_movie_row(row: MovieRow, movie: Movies, genre_id: i64, date_added: Seq<char>) -> bool {
    &&& row.yify_id == movie.id
    &&& row.genre_id == genre_id
    &&& row.title@ == movie.title@
    &&& row.year == movie.year
    &&& row.imdb_url@ == movie.imdb_code@
    &&& row.description@ == movie.description_full@
    &&& row.youtube_url@ == movie.yt_trailer_code@
    &&& row.date_added@ == date_added
}

/// `row` stores `torrent` for the movie row `movie_id`.
pub open spec fn is_torrent_row(row: TorrentRow, movie_id: i64, torrent: Torrents) -> bool {
    &&& row.movie_id == movie_id
    &&& row.link@ == torrent.url@
    &&& row.hash@ == torrent.hash@
    &&& row.quality@ == torrent.quality@
}

/// The row that stores `movie` under the genre `genre_id`.
pub fn movie_row(movie: &Movies, genre_id: i64, date_added: &str) -> (row: MovieRow)
    ensures
        is_movie_row(row, *movie, genre_id, date_added@),
{
    MovieRow {
        yify_id: movie.id,
        genre_id,
        title: movie.title.clone(),
        year: movie.year,
        imdb_url: movie.imdb_code.clone(),
        description: movie.description_full.clone(),
        youtube_url: movie.yt_trailer_code.clone(),
        date_added: date_added.to_owned(),
    }
}

/// The row that stores `torrent` for the movie row `movie_id`.
pub fn torrent_row(movie_id: i64, torrent: &Torrents) -> (row: TorrentRow)
    ensures
        is_torrent_row(row, movie_id, *torrent),
{
    TorrentRow {
        movie_id,
        link: torrent.url.clone(),
        hash: torrent.hash.clone(),
        quality: torrent.quality.clone(),
    }
}

/// Where an import run stands within one movie.
#[derive(Debug, Clone, Copy, PartialEq, Eq)]
pub enum ImportStep {
    /// Look the movie's first genre up by name.
    LookUpGenre,
    /// The genre is not known yet: add it.
    InsertGenre,
    /// Open the movie's transaction.
    BeginTransaction { genre_id: i64 },
    /// Add the movie's row.
    InsertDetail { genre_id: i64 },
    /// Add the movie's torrent at `index`.
    InsertTorrent { row_id: i64, index: usize },
    /// Download the cover.
    FetchImage { row_id: i64 },
    /// Save the downloaded cover and record where it went.
    SaveImage { row_id: i64 },
    /// Commit the movie's transaction.
    Commit,
}

/// The state of an import run.
#[derive(Debug, Clone, Copy, PartialEq, Eq)]
pub enum ImportState {
    /// Working on the movie at index `movie`.
    Working { movie: usize, step: ImportStep },
    /// The movie at index `movie` lists no genre; the run cannot go on.
    MissingGenre { movie: usize },
    /// Every movie has been dealt with.
    Finished,
    /// An action failed; the run stops with its error.
    Failed,
}

/// What came of the action that a state asked for.
#[derive(Debug, Clone, Copy, PartialEq, Eq)]
pub enum ImportEvent {
    /// The action succeeded.
    Done,
    /// The action succeeded and gave this id (a genre id or a row id).
    Id(i64),
    /// The action failed.
    Failed,
}

/// What the caller does for a state.
#[derive(Debug)]
pub enum ImportAction {
    LookUpGenre { genre: String },
    InsertGenre { genre: String },
    BeginTransaction,
    InsertDetail { row: MovieRow },
    InsertTorrent { torrent: TorrentRow },
    FetchImage { url: String },
    SaveImage { movie_id: i64, file_name: String },
    Commit,
}

/// The state in which the run takes up the movie at index `movie`.
pub open spec fn spec_start_movie(movies: Seq<Movies>, movie: int) -> ImportState {
    if movie >= movies.len() {
        ImportState::Finished
    } else if movies[movie].genres.len() == 0 {
        ImportState::MissingGenre { movie: movie as usize }
    } else {
        ImportState::Working { movie: movie as usize, step: ImportStep::LookUpGenre }
    }
}

/// The state after the movie's row was added as `row_id`: its torrents
/// follow, or its cover where it has none.
pub open spec fn spec_after_detail(movies: Seq<Movies>, movie: usize, row_id: i64) -> ImportState {
    if movies[movie as int].torrents.len() == 0 {
        ImportState::Working { movie, step: ImportStep::FetchImage { row_id } }
    } else {
        ImportState::Working { movie, step: ImportStep::InsertTorrent { row_id, index: 0 } }
    }
}

/// The state that follows `state` when its action ended with `event`.
/// A genre that cannot be looked up is added; a movie whose row cannot be
/// added (it is there already) is left, and its transaction with it; any
/// other failure stops the run.
pub open spec fn spec_import_next(movies: Seq<Movies>, state: ImportState, event: ImportEvent) -> ImportState {
    match state {
        ImportState::Working { movie, step } => match step {
            ImportStep::LookUpGenre => match event {
                ImportEvent::Id(genre_id) => ImportState::Working {
                    movie,
                    step: ImportStep::BeginTransaction { genre_id },
                },
                _ => ImportState::Working { movie, step: ImportStep::InsertGenre },
            },
            ImportStep::InsertGenre => match event {
                ImportEvent::Id(genre_id) => ImportState::Working {
                    movie,
                    step: ImportStep::BeginTransaction { genre_id },
                },
                _ => ImportState::Failed,
            },
            ImportStep::BeginTransaction { genre_id } => match event {
                ImportEvent::Failed => ImportState::Failed,
                _ => ImportState::Working { movie, step: ImportStep::InsertDetail { genre_id } },
            },
            ImportStep::InsertDetail { genre_id } => match event {
                ImportEvent::Id(row_id) => spec_after_detail(movies, movie, row_id),
                _ => spec_start_movie(movies, movie + 1),
            },
            ImportStep::InsertTorrent { row_id, index } => match event {
                ImportEvent::Failed => ImportState::Failed,
                _ => if index + 1 < movies[movie as int].torrents.len() {
                    ImportState::Working {
                        movie,
                        step: ImportStep::InsertTorrent { row_id, index: (index + 1) as usize },
                    }
                } else {
                    ImportState::Working { movie, step: ImportStep::FetchImage { row_id } }
                },
            },
            ImportStep::FetchImage { row_id } => match event {
                ImportEvent::Failed => ImportState::Failed,
                _ => ImportState::Working { movie, step: ImportStep::SaveImage { row_id } },
            },
            ImportStep::SaveImage { row_id } => match event {
                ImportEvent::Failed => ImportState::Failed,
                _ => ImportState::Working { movie, step: ImportStep::Commit },
            },
            ImportStep::Commit => match event {
                ImportEvent::Failed => ImportState::Failed,
                _ => spec_start_movie(movies, movie + 1),
            },
        },
        _ => state,
    }
}

/// A state that a run over `movies` can be in: it names a movie of the
/// listing, one with a genre while work on it goes on, and a torrent of
/// that movie.
pub open spec fn valid_import_state(movies: Seq<Movies>, state: ImportState) -> bool {
    match state {
        ImportState::Working { movie, step } => {
            &&& movie < movies.len()
            &&& movies[movie as int].genres.len() > 0
            &&& (step matches ImportStep::InsertTorrent { index, .. } ==> index
                < movies[movie as int].torrents.len())
        },
        ImportState::MissingGenre { movie } => movie < movies.len(),
        _ => true,
    }
}

/// The action that `state` asks for, with `date_added` the day of the run.
pub open spec fn is_import_action(
    movies: Seq<Movies>,
    state: ImportState,
    date_added: Seq<char>,
    action: ImportAction,
) -> bool {
    match state {
        ImportState::Working { movie, step } => {
            let m = movies[movie as int];
            match step {
                ImportStep::LookUpGenre => action matches ImportAction::LookUpGenre { genre }
                    && genre@ == m.genres[0]@,
                ImportStep::InsertGenre => action matches ImportAction::InsertGenre { genre }
                    && genre@ == m.genres[0]@,
                ImportStep::BeginTransaction { .. } => action is BeginTransaction,
                ImportStep::InsertDetail { genre_id } => action matches ImportAction::InsertDetail { row }
                    && is_movie_row(row, m, genre_id, date_added),
                ImportStep::InsertTorrent { row_id, index } => action matches ImportAction::InsertTorrent {
                    torrent,
                } && is_torrent_row(torrent, row_id, m.torrents[index as int]),
                ImportStep::FetchImage { .. } => action matches ImportAction::FetchImage { url }
                    && url@ == m.medium_cover_image@,
                ImportStep::SaveImage { row_id } => action matches ImportAction::SaveImage {
                    movie_id,
                    file_name,
                } && movie_id == row_id && file_name@ == m.title@ + spec_image_extension(
                    m.medium_cover_image@,
                ),
                ImportStep::Commit => action is Commit,
            }
        },
        _ => false,
    }
}

/// The state a run over `data` starts in.
pub fn import_start(data: &Data) -> (state: ImportState)
    ensures
        state == spec_start_movie(data.movies@, 0),
        valid_import_state(data.movies@, state),
{
    start_movie(data, 0)
}

/// The state in which a run takes up the movie at index `movie`.
fn start_movie(data: &Data, movie: usize) -> (state: ImportState)
    requires
        movie <= data.movies@.len(),
    ensures
        state == spec_start_movie(data.movies@, movie as int),
        valid_import_state(data.movies@, state),
{
    if movie >= data.movies.len() {
        ImportState::Finished
    } else if data.movies[movie].genres.len() == 0 {
        ImportState::MissingGenre { movie }
    } else {
        ImportState::Working { movie, step: ImportStep::LookUpGenre }
    }
}

/// Whether `state` is one that a run over `data` can be in.
pub fn is_valid_import_state(data: &Data, state: &ImportState) -> (valid: bool)
    ensures
        valid == valid_import_state(data.movies@, *state),
{
    match state {
        ImportState::Working { movie, step } => {
            if *movie >= data.movies.len() {
                return false;
            }
            let m = &data.movies[*movie];
            if m.genres.len() == 0 {
                return false;
            }
            match step {
                ImportStep::InsertTorrent { index, .. } => *index < m.torrents.len(),
                _ => true,
            }
        },
        ImportState::MissingGenre { movie } => *movie < data.movies.len(),
        _ => true,
    }
}

/// The state that follows `state` in a run over `data` when its action
/// ended with `event`.
pub fn import_next(data: &Data, state: &ImportState, event: ImportEvent) -> (next: ImportState)
    requires
        valid_import_state(data.movies@, *state),
    ensures
        next == spec_import_next(data.movies@, *state, event),
        valid_import_state(data.movies@, next),
{
    let count = data.movies.len();
    match *state {
        ImportState::Working { movie, step } => match step {
            ImportStep::LookUpGenre => match event {
                ImportEvent::Id(genre_id) => ImportState::Working {
                    movie,
                    step: ImportStep::BeginTransaction { genre_id },
                },
                _ => ImportState::Working { movie, step: ImportStep::InsertGenre },
            },
            ImportStep::InsertGenre => match event {
                ImportEvent::Id(genre_id) => ImportState::Working {
                    movie,
                    step: ImportStep::BeginTransaction { genre_id },
                },
                _ => ImportState::Failed,
            },
            ImportStep::BeginTransaction { genre_id } => match event {
                ImportEvent::Failed => ImportState::Failed,
                _ => ImportState::Working { movie, step: ImportStep::InsertDetail { genre_id } },
            },
            ImportStep::InsertDetail { genre_id } => match event {
                ImportEvent::Id(row_id) => {
                    if data.movies[movie].torrents.len() == 0 {
                        ImportState::Working { movie, step: ImportStep::FetchImage { row_id } }
                    } else {
                        ImportState::Working {
                            movie,
                            step: ImportStep::InsertTorrent { row_id, index: 0 },
                        }
                    }
                },
                _ => start_movie(data, movie + 1),
            },
            ImportStep::InsertTorrent { row_id, index } => match event {
                ImportEvent::Failed => ImportState::Failed,
                _ => if index + 1 < data.movies[movie].torrents.len() {
                    ImportState::Working {
                        movie,
                        step: ImportStep::InsertTorrent { row_id, index: index + 1 },
                    }
                } else {
                    ImportState::Working { movie, step: ImportStep::FetchImage { row_id } }
                },
            },
            ImportStep::FetchImage { row_id } => match event {
                ImportEvent::Failed => ImportState::Failed,
                _ => ImportState::Working { movie, step: ImportStep::SaveImage { row_id } },
            },
            ImportStep::SaveImage { row_id } => match event {
                ImportEvent::Failed => ImportState::Failed,
                _ => ImportState::Working { movie, step: ImportStep::Commit },
            },
            ImportStep::Commit => match event {
                ImportEvent::Failed => ImportState::Failed,
                _ => start_movie(data, movie + 1),
            },
        },
        _ => *state,
    }
}

/// The action that `state` asks for in a run over `data` on the day
/// `date_added`; a run that has stopped asks for none.
pub fn import_action(data: &Data, state: &ImportState, date_added: &str) -> (action: Option<ImportAction>)
    requires
        valid_import_state(data.movies@, *state),
    ensures
        match action {
            Some(a) => is_import_action(data.movies@, *state, date_added@, a),
            None => !(*state is Working),
        },
{
    match *state {
        ImportState::Working { movie, step } => {
            let m = &data.movies[movie];
            let action = match step {
                ImportStep::LookUpGenre => ImportAction::LookUpGenre { genre: m.genres[0].clone() },
                ImportStep::InsertGenre => ImportAction::InsertGenre { genre: m.genres[0].clone() },
                ImportStep::BeginTransaction { .. } => ImportAction::BeginTransaction,
                ImportStep::InsertDetail { genre_id } => ImportAction::InsertDetail {
                    row: movie_row(m, genre_id, date_added),
                },
                ImportStep::InsertTorrent { row_id, index } => ImportAction::InsertTorrent {
                    torrent: torrent_row(row_id, &m.torrents[index]),
                },
                ImportStep::FetchImage { .. } => ImportAction::FetchImage {
                    url: m.medium_cover_image.clone(),
                },
                ImportStep::SaveImage { row_id } => {
                    let extension = image_extension(m.medium_cover_image.as_str());
                    ImportAction::SaveImage {
                        movie_id: row_id,
                        file_name: image_file_name(m.title.as_str(), extension),
                    }
                },
                ImportStep::Commit => ImportAction::Commit,
            };
            Some(action)
        },
        _ => None,
    }
}


/// How many actions at most remain for the current movie from `step`.
pub open spec fn steps_left(movies: Seq<Movies>, movie: usize, step: ImportStep) -> int {
    let n = movies[movie as int].torrents.len() as int;
    match step {
        ImportStep::LookUpGenre => n + 7,
        ImportStep::InsertGenre => n + 6,
        ImportStep::BeginTransaction { .. } => n + 5,
        ImportStep::InsertDetail { .. } => n + 4,
        ImportStep::InsertTorrent { index, .. } => n - index + 3,
        ImportStep::FetchImage { .. } => 3,
        ImportStep::SaveImage { .. } => 2,
        ImportStep::Commit => 1,
    }
}

/// Every step of a run makes progress: it stops the run, moves on to a
/// later movie, or stays on the same movie with fewer actions left. So a
/// run over a listing ends.
pub proof fn law_import_makes_progress(movies: Seq<Movies>, movie: usize, step: ImportStep, event: ImportEvent)
    requires
        movies.len() <= usize::MAX,
        valid_import_state(movies, ImportState::Working { movie, step }),
    ensures
        match spec_import_next(movies, ImportState::Working { movie, step }, event) {
            ImportState::Working { movie: next_movie, step: next_step } => movie < next_movie || (
            movie == next_movie && 0 <= steps_left(movies, movie, next_step) < steps_left(
                movies,
                movie,
                step,
            )),
            ImportState::MissingGenre { movie: next_movie } => movie < next_movie,
            _ => true,
        },
{
}

/// A run moves on from a movie only after committing its transaction, or
/// when the movie's row could not be added; it finishes only after the last
/// movie.
pub proof fn law_movie_left_only_after_commit_or_duplicate(
    movies: Seq<Movies>,
    movie: usize,
    step: ImportStep,
    event: ImportEvent,
)
    requires
        movies.len() <= usize::MAX,
        valid_import_state(movies, ImportState::Working { movie, step }),
    ensures
        ({
            let next = spec_import_next(movies, ImportState::Working { movie, step }, event);
            &&& (next matches ImportState::Working { movie: m, .. } && m != movie) || next is MissingGenre
                || next is Finished ==> (step is Commit && !(event is Failed)) || (step is InsertDetail
                && !(event is Id))
            &&& next is Finished ==> movie + 1 == movies.len()
            &&& next matches ImportState::Working { movie: m, .. } ==> m == movie || m == movie + 1
        }),
{
}

/// Every torrent of a stored movie is inserted, in order, each once: after
/// the movie's row is added the run goes to its first torrent when it lists
/// any, and to its cover only when it lists none; after the torrent at
/// `index` it goes to the next one, and to the cover only after the last.
pub proof fn law_every_torrent_inserted(
    movies: Seq<Movies>,
    movie: usize,
    genre_id: i64,
    row_id: i64,
    index: usize,
    event: ImportEvent,
)
    requires
        movie < movies.len(),
    ensures
        movies[movie as int].torrents.len() > 0 ==> spec_import_next(
            movies,
            ImportState::Working { movie, step: ImportStep::InsertDetail { genre_id } },
            ImportEvent::Id(row_id),
        ) == (ImportState::Working { movie, step: ImportStep::InsertTorrent { row_id, index: 0 } }),
        movies[movie as int].torrents.len() == 0 ==> spec_import_next(
            movies,
            ImportState::Working { movie, step: ImportStep::InsertDetail { genre_id } },
            ImportEvent::Id(row_id),
        ) == (ImportState::Working { movie, step: ImportStep::FetchImage { row_id } }),
        !(event is Failed) && index + 1 < movies[movie as int].torrents.len() ==> spec_import_next(
            movies,
            ImportState::Working { movie, step: ImportStep::InsertTorrent { row_id, index } },
            event,
        ) == (ImportState::Working {
            movie,
            step: ImportStep::InsertTorrent { row_id, index: (index + 1) as usize },
        }),
        !(event is Failed) && index + 1 == movies[movie as int].torrents.len() ==> spec_import_next(
            movies,
            ImportState::Working { movie, step: ImportStep::InsertTorrent { row_id, index } },
            event,
        ) == (ImportState::Working { movie, step: ImportStep::FetchImage { row_id } }),
{
}

/// The steps of a movie come in their order, each from the one before it
/// and only on success: the genre is looked up, and added only when the
/// lookup gave no id; the transaction is opened with the genre id that the
/// lookup or the insert gave; the row is added under that id; the torrents
/// follow the row, from the first, one after another, under the row's id;
/// the cover is fetched after the last torrent (after the row where there is
/// none), saved after it is fetched, and the transaction is committed after
/// the cover is saved. A new movie is taken up only after a commit or a
/// skipped row, and the run fails only on a failed action.
pub proof fn law_import_step_order(movies: Seq<Movies>, movie: usize, step: ImportStep, event: ImportEvent)
    requires
        movies.len() <= usize::MAX,
        valid_import_state(movies, ImportState::Working { movie, step }),
    ensures
        ({
            let next = spec_import_next(movies, ImportState::Working { movie, step }, event);
            let torrents = movies[movie as int].torrents.len();
            &&& next matches ImportState::Working { movie: m, step: ImportStep::Commit } ==> m == movie
                && step is SaveImage && !(event is Failed)
            &&& next matches ImportState::Working { movie: m, step: ImportStep::SaveImage { row_id } } ==> m
                == movie && step == (ImportStep::FetchImage { row_id }) && !(event is Failed)
            &&& next matches ImportState::Working { movie: m, step: ImportStep::FetchImage { row_id } } ==> m
                == movie && ((step == (ImportStep::InsertTorrent { row_id, index: (torrents - 1) as usize })
                && !(event is Failed)) || (step is InsertDetail && event == ImportEvent::Id(row_id)
                && torrents == 0))
            &&& next matches ImportState::Working {
                movie: m,
                step: ImportStep::InsertTorrent { row_id, index },
            } ==> m == movie && ((index == 0 && step is InsertDetail && event == ImportEvent::Id(row_id))
                || (index > 0 && step == (ImportStep::InsertTorrent { row_id, index: (index - 1) as usize })
                && !(event is Failed)))
            &&& next matches ImportState::Working { movie: m, step: ImportStep::InsertDetail { genre_id } }
                ==> m == movie && step == (ImportStep::BeginTransaction { genre_id }) && !(event is Failed)
            &&& next matches ImportState::Working {
                movie: m,
                step: ImportStep::BeginTransaction { genre_id },
            } ==> m == movie && (step is LookUpGenre || step is InsertGenre) && event == ImportEvent::Id(
                genre_id,
            )
            &&& next matches ImportState::Working { movie: m, step: ImportStep::InsertGenre } ==> m == movie
                && step is LookUpGenre && !(event is Id)
            &&& next matches ImportState::Working { movie: m, step: ImportStep::LookUpGenre } ==> m == movie
                + 1 && ((step is Commit && !(event is Failed)) || (step is InsertDetail && !(event is Id)))
            &&& next is Failed ==> event is Failed || (step is InsertGenre && !(event is Id))
            &&& event is Failed && !(step is LookUpGenre) && !(step is InsertDetail) ==> next is Failed
        }),
{
}

/// The statements of a run: the genre is looked up and added by name, the
/// movie row takes its nine values (the rating sixth), a torrent its four,
/// and the cover's row the movie id and the path.
pub proof fn law_import_statements()
    ensures
        GENRE_QUERY@ == "SELECT id from genre where name=?"@,
        INSERT_GENRE_STATEMENT@ == "INSERT INTO genre(name) VALUES(1?)"@,
        INSERT_MOVIE_STATEMENT@ == "INSERT INTO movie(yify_id,genre_id,title,year,\n                       imdb_url,rating,description,youtube_url,date_added) VALUES(?1,?2,?3,?4,?5,?6,?7,?8,?9)"@,
        INSERT_TORRENT_STATEMENT@ == "INSERT into torrent(movie_id, link,hash, quality) VALUES(?1,?2,?3,?4)"@,
        INSERT_IMAGE_STATEMENT@ == "INSERT INTO image(movie_id,path) VALUES(?1,?2)"@,
{
}

/// A stopped run stays stopped, whatever is handed to it.
pub proof fn law_stopped_run_stays(movies: Seq<Movies>, state: ImportState, event: ImportEvent)
    requires
        !(state is Working),
    ensures
        spec_import_next(movies, state, event) == state,
{
}

} // verus!
