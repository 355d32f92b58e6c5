//! The schema of a new movie database and the choice between creating one
//! and bringing an existing one up to date.
use vstd::prelude::*;
use crate::decimal::decimal_text;
use crate::migration::INITIAL_SCHEMA_VERSION;

verus! {

/// The file that holds the movie database.
pub const DATABASE_PATH: &'static str = "db.sqlite";

/// The query for the latest version recorded in a database.
pub const LATEST_VERSION_QUERY: &'static str = "SELECT max(version) from migration";

/// The statement that records a version once its change has been applied.
pub const RECORD_VERSION_STATEMENT: &'static str = "INSERT INTO migration(version) VALUES(?)";

/// The statements that create the tables of a new database, in order; the
/// last one records the initial version.
pub open spec fn spec_create_movie_table() -> Seq<Seq<char>> {
    seq![
        "CREATE TABLE genre(id INTEGER PRIMARY KEY, name TEXT)"@,
        "CREATE TABLE movie(id INTEGER PRIMARY KEY,\n            title TEXT, date_added TEXT, yify_id INTEGER,genre_id INTEGER,rating REAL,\n            youtube_url TEXT, imdb_url TEXT,description TEXT,year INTEGER,\n           FOREIGN KEY(genre_id) REFERENCES genre(id))"@,
        "CREATE TABLE torrent(id INTEGER PRIMARY KEY, link TEXT, hashTEXT,\n            movie_id INTEGER,quality TEXT,\n            FOREIGN KEY(movie_id) REFERENCES movie(id))"@,
        "CREATE TABLE migration(id INTEGER PRIMARY KEY, version INTEGER)"@,
        "CREATE TABLE image(id INTEGER PRIMARY KEY, path TEXT, movie_id INTEGER,\n            FOREIGN KEY(movie_id) REFERENCES movie(id))"@,
        "CREATE TABLE status(id INTEGER PRIMARY KEY, name TEXT)"@,
        "CREATE TABLE queue(id INTEGER PRIMARY KEY, movie_id INTEGER, status_id INTEGER,\n            FOREIGN KEY(movie_id) REFERENCES movie(id),\n            FOREIGN KEY(status_id) REFERENCES status(id))"@,
        "CREATE TABLE config(id INTEGER PRIMARY KEY, key TEXT, value TEXT)"@,
        "INSERT INTO migration(version) values(1)"@
    ]
}

/// The statements that create a new movie database, to be run in one
/// transaction, in this order.
pub fn create_movie_table_statements() -> (statements: Vec<&'static str>)
    ensures
        statements@.map_values(|s: &'static str| s@) == spec_create_movie_table(),
{
    let statements = vec![
        "CREATE TABLE genre(id INTEGER PRIMARY KEY, name TEXT)",
        "CREATE TABLE movie(id INTEGER PRIMARY KEY,\n            title TEXT, date_added TEXT, yify_id INTEGER,genre_id INTEGER,rating REAL,\n            youtube_url TEXT, imdb_url TEXT,description TEXT,year INTEGER,\n           FOREIGN KEY(genre_id) REFERENCES genre(id))",
        "CREATE TABLE torrent(id INTEGER PRIMARY KEY, link TEXT, hashTEXT,\n            movie_id INTEGER,quality TEXT,\n            FOREIGN KEY(movie_id) REFERENCES movie(id))",
        "CREATE TABLE migration(id INTEGER PRIMARY KEY, version INTEGER)",
        "CREATE TABLE image(id INTEGER PRIMARY KEY, path TEXT, movie_id INTEGER,\n            FOREIGN KEY(movie_id) REFERENCES movie(id))",
        "CREATE TABLE status(id INTEGER PRIMARY KEY, name TEXT)",
        "CREATE TABLE queue(id INTEGER PRIMARY KEY, movie_id INTEGER, status_id INTEGER,\n            FOREIGN KEY(movie_id) REFERENCES movie(id),\n            FOREIGN KEY(status_id) REFERENCES status(id))",
        "CREATE TABLE config(id INTEGER PRIMARY KEY, key TEXT, value TEXT)",
        "INSERT INTO migration(version) values(1)",
    ];
    proof {
        assert(statements@.map_values(|s: &'static str| s@) =~= spec_create_movie_table());
    }
    statements
}

/// How the database is prepared at start-up.
#[derive(Debug, Clone, Copy, PartialEq, Eq)]
pub enum DatabaseSetup {
    /// The database file exists: apply the changes it lacks.
    Migrate,
    /// There is no database file yet: create the tables.
    Create,
}

/// An existing database is migrated, a missing one is created.
pub fn database_setup(database_exists: bool) -> (setup: DatabaseSetup)
    ensures
        setup == (if database_exists { DatabaseSetup::Migrate } else { DatabaseSetup::Create }),
{
    if database_exists {
        DatabaseSetup::Migrate
    } else {
        DatabaseSetup::Create
    }
}


/// A new database records the initial version: the last statement that
/// creates it stores that version in the `migration` table.
pub proof fn law_new_database_records_initial_version()
    ensures
        spec_create_movie_table().last() == "INSERT INTO migration(version) values("@ + decimal_text(
            INITIAL_SCHEMA_VERSION as int,
        ) + ")"@,
{
    reveal_strlit("INSERT INTO migration(version) values(1)");
    reveal_strlit("INSERT INTO migration(version) values(");
    reveal_strlit(")");
    assert(decimal_text(INITIAL_SCHEMA_VERSION as int) =~= seq!['1']);
    assert(spec_create_movie_table().last() =~= "INSERT INTO migration(version) values("@ + decimal_text(
        INITIAL_SCHEMA_VERSION as int,
    ) + ")"@);
}



/// `t` occurs in `s`.
pub open spec fn has_infix(s: Seq<char>, t: Seq<char>) -> bool {
    exists|k: int| 0 <= k && k + t.len() <= s.len() && #[trigger] s.subrange(k, k + t.len()) == t
}

/// `statement` creates the table `table` with (at least) the column and key
/// definitions `columns`.
pub open spec fn creates_table(statement: Seq<char>, table: Seq<char>, columns: Seq<Seq<char>>) -> bool {
    let head = "CREATE TABLE "@ + table + "("@;
    &&& head.len() <= statement.len()
    &&& statement.subrange(0, head.len() as int) == head
    &&& forall|c: int| 0 <= c < columns.len() ==> has_infix(statement, #[trigger] columns[c])
}

/// A new database has the eight tables, in this order, each with its id key,
/// the columns that the changes, the import and the dialogs read and write,
/// and its foreign keys; then it records the initial version. (The torrent
/// table's hash column is declared `hashTEXT`, with no type.)
pub proof fn law_new_database_tables()
    ensures
        spec_create_movie_table().len() == 9,
        creates_table(spec_create_movie_table()[0], "genre"@, seq!["id INTEGER PRIMARY KEY"@, "name TEXT"@]),
        creates_table(spec_create_movie_table()[1], "movie"@, seq!["id INTEGER PRIMARY KEY"@, "title TEXT"@, "date_added TEXT"@, "yify_id INTEGER"@, "genre_id INTEGER"@, "rating REAL"@, "youtube_url TEXT"@, "imdb_url TEXT"@, "description TEXT"@, "year INTEGER"@, "FOREIGN KEY(genre_id) REFERENCES genre(id)"@]),
        creates_table(spec_create_movie_table()[2], "torrent"@, seq!["id INTEGER PRIMARY KEY"@, "link TEXT"@, "hashTEXT"@, "movie_id INTEGER"@, "quality TEXT"@, "FOREIGN KEY(movie_id) REFERENCES movie(id)"@]),
        creates_table(spec_create_movie_table()[3], "migration"@, seq!["id INTEGER PRIMARY KEY"@, "version INTEGER"@]),
        creates_table(spec_create_movie_table()[4], "image"@, seq!["id INTEGER PRIMARY KEY"@, "path TEXT"@, "movie_id INTEGER"@, "FOREIGN KEY(movie_id) REFERENCES movie(id)"@]),
        creates_table(spec_create_movie_table()[5], "status"@, seq!["id INTEGER PRIMARY KEY"@, "name TEXT"@]),
        creates_table(spec_create_movie_table()[6], "queue"@, seq!["id INTEGER PRIMARY KEY"@, "movie_id INTEGER"@, "status_id INTEGER"@, "FOREIGN KEY(movie_id) REFERENCES movie(id)"@, "FOREIGN KEY(status_id) REFERENCES status(id)"@]),
        creates_table(spec_create_movie_table()[7], "config"@, seq!["id INTEGER PRIMARY KEY"@, "key TEXT"@, "value TEXT"@]),
        spec_create_movie_table()[8] == "INSERT INTO migration(version) values(1)"@,
{
    reveal_strlit("CREATE TABLE ");
    reveal_strlit("(");
    reveal_strlit("CREATE TABLE genre(id INTEGER PRIMARY KEY, name TEXT)");
    reveal_strlit("CREATE TABLE movie(id INTEGER PRIMARY KEY,\n            title TEXT, date_added TEXT, yify_id INTEGER,genre_id INTEGER,rating REAL,\n            youtube_url TEXT, imdb_url TEXT,description TEXT,year INTEGER,\n           FOREIGN KEY(genre_id) REFERENCES genre(id))");
    reveal_strlit("CREATE TABLE torrent(id INTEGER PRIMARY KEY, link TEXT, hashTEXT,\n            movie_id INTEGER,quality TEXT,\n            FOREIGN KEY(movie_id) REFERENCES movie(id))");
    reveal_strlit("CREATE TABLE migration(id INTEGER PRIMARY KEY, version INTEGER)");
    reveal_strlit("CREATE TABLE image(id INTEGER PRIMARY KEY, path TEXT, movie_id INTEGER,\n            FOREIGN KEY(movie_id) REFERENCES movie(id))");
    reveal_strlit("CREATE TABLE status(id INTEGER PRIMARY KEY, name TEXT)");
    reveal_strlit("CREATE TABLE queue(id INTEGER PRIMARY KEY, movie_id INTEGER, status_id INTEGER,\n            FOREIGN KEY(movie_id) REFERENCES movie(id),\n            FOREIGN KEY(status_id) REFERENCES status(id))");
    reveal_strlit("CREATE TABLE config(id INTEGER PRIMARY KEY, key TEXT, value TEXT)");
    reveal_strlit("INSERT INTO migration(version) values(1)");
    reveal_strlit("genre");
    reveal_strlit("id INTEGER PRIMARY KEY");
    reveal_strlit("name TEXT");
    reveal_strlit("movie");
    reveal_strlit("title TEXT");
    reveal_strlit("date_added TEXT");
    reveal_strlit("yify_id INTEGER");
    reveal_strlit("genre_id INTEGER");
    reveal_strlit("rating REAL");
    reveal_strlit("youtube_url TEXT");
    reveal_strlit("imdb_url TEXT");
    reveal_strlit("description TEXT");
    reveal_strlit("year INTEGER");
    reveal_strlit("FOREIGN KEY(genre_id) REFERENCES genre(id)");
    reveal_strlit("torrent");
    reveal_strlit("link TEXT");
    reveal_strlit("hashTEXT");
    reveal_strlit("movie_id INTEGER");
    reveal_strlit("quality TEXT");
    reveal_strlit("FOREIGN KEY(movie_id) REFERENCES movie(id)");
    reveal_strlit("migration");
    reveal_strlit("version INTEGER");
    reveal_strlit("image");
    reveal_strlit("path TEXT");
    reveal_strlit("status");
    reveal_strlit("queue");
    reveal_strlit("status_id INTEGER");
    reveal_strlit("FOREIGN KEY(status_id) REFERENCES status(id)");
    reveal_strlit("config");
    reveal_strlit("key TEXT");
    reveal_strlit("value TEXT");
    let s0 = spec_create_movie_table()[0];
    assert(s0.subrange(0, 19) =~= "CREATE TABLE "@ + "genre"@ + "("@);
    let c0 = seq!["id INTEGER PRIMARY KEY"@, "name TEXT"@];
    assert(s0.subrange(19, 41) =~= c0[0]);
    assert(s0.subrange(43, 52) =~= c0[1]);
    assert forall|c: int| 0 <= c < c0.len() implies has_infix(s0, #[trigger] c0[c]) by {
        if c == 0 {
            assert(s0.subrange(19, 19 + c0[c].len() as int) == c0[c]);
        }
        if c == 1 {
            assert(s0.subrange(43, 43 + c0[c].len() as int) == c0[c]);
        }
    }
    let s1 = spec_create_movie_table()[1];
    assert(s1.subrange(0, 19) =~= "CREATE TABLE "@ + "movie"@ + "("@);
    let c1 = seq!["id INTEGER PRIMARY KEY"@, "title TEXT"@, "date_added TEXT"@, "yify_id INTEGER"@, "genre_id INTEGER"@, "rating REAL"@, "youtube_url TEXT"@, "imdb_url TEXT"@, "description TEXT"@, "year INTEGER"@, "FOREIGN KEY(genre_id) REFERENCES genre(id)"@];
    assert(s1.subrange(19, 41) =~= c1[0]);
    assert(s1.subrange(55, 65) =~= c1[1]);
    assert(s1.subrange(67, 82) =~= c1[2]);
    assert(s1.subrange(84, 99) =~= c1[3]);
    assert(s1.subrange(100, 116) =~= c1[4]);
    assert(s1.subrange(117, 128) =~= c1[5]);
    assert(s1.subrange(142, 158) =~= c1[6]);
    assert(s1.subrange(160, 173) =~= c1[7]);
    assert(s1.subrange(174, 190) =~= c1[8]);
    assert(s1.subrange(191, 203) =~= c1[9]);
    assert(s1.subrange(216, 258) =~= c1[10]);
    assert forall|c: int| 0 <= c < c1.len() implies has_infix(s1, #[trigger] c1[c]) by {
        if c == 0 {
            assert(s1.subrange(19, 19 + c1[c].len() as int) == c1[c]);
        }
        if c == 1 {
            assert(s1.subrange(55, 55 + c1[c].len() as int) == c1[c]);
        }
        if c == 2 {
            assert(s1.subrange(67, 67 + c1[c].len() as int) == c1[c]);
        }
        if c == 3 {
            assert(s1.subrange(84, 84 + c1[c].len() as int) == c1[c]);
        }
        if c == 4 {
            assert(s1.subrange(100, 100 + c1[c].len() as int) == c1[c]);
        }
        if c == 5 {
            assert(s1.subrange(117, 117 + c1[c].len() as int) == c1[c]);
        }
        if c == 6 {
            assert(s1.subrange(142, 142 + c1[c].len() as int) == c1[c]);
        }
        if c == 7 {
            assert(s1.subrange(160, 160 + c1[c].len() as int) == c1[c]);
        }
        if c == 8 {
            assert(s1.subrange(174, 174 + c1[c].len() as int) == c1[c]);
        }
        if c == 9 {
            assert(s1.subrange(191, 191 + c1[c].len() as int) == c1[c]);
        }
        if c == 10 {
            assert(s1.subrange(216, 216 + c1[c].len() as int) == c1[c]);
        }
    }
    let s2 = spec_create_movie_table()[2];
    assert(s2.subrange(0, 21) =~= "CREATE TABLE "@ + "torrent"@ + "("@);
    let c2 = seq!["id INTEGER PRIMARY KEY"@, "link TEXT"@, "hashTEXT"@, "movie_id INTEGER"@, "quality TEXT"@, "FOREIGN KEY(movie_id) REFERENCES movie(id)"@];
    assert(s2.subrange(21, 43) =~= c2[0]);
    assert(s2.subrange(45, 54) =~= c2[1]);
    assert(s2.subrange(56, 64) =~= c2[2]);
    assert(s2.subrange(78, 94) =~= c2[3]);
    assert(s2.subrange(95, 107) =~= c2[4]);
    assert(s2.subrange(121, 163) =~= c2[5]);
    assert forall|c: int| 0 <= c < c2.len() implies has_infix(s2, #[trigger] c2[c]) by {
        if c == 0 {
            assert(s2.subrange(21, 21 + c2[c].len() as int) == c2[c]);
        }
        if c == 1 {
            assert(s2.subrange(45, 45 + c2[c].len() as int) == c2[c]);
        }
        if c == 2 {
            assert(s2.subrange(56, 56 + c2[c].len() as int) == c2[c]);
        }
        if c == 3 {
            assert(s2.subrange(78, 78 + c2[c].len() as int) == c2[c]);
        }
        if c == 4 {
            assert(s2.subrange(95, 95 + c2[c].len() as int) == c2[c]);
        }
        if c == 5 {
            assert(s2.subrange(121, 121 + c2[c].len() as int) == c2[c]);
        }
    }
    let s3 = spec_create_movie_table()[3];
    assert(s3.subrange(0, 23) =~= "CREATE TABLE "@ + "migration"@ + "("@);
    let c3 = seq!["id INTEGER PRIMARY KEY"@, "version INTEGER"@];
    assert(s3.subrange(23, 45) =~= c3[0]);
    assert(s3.subrange(47, 62) =~= c3[1]);
    assert forall|c: int| 0 <= c < c3.len() implies has_infix(s3, #[trigger] c3[c]) by {
        if c == 0 {
            assert(s3.subrange(23, 23 + c3[c].len() as int) == c3[c]);
        }
        if c == 1 {
            assert(s3.subrange(47, 47 + c3[c].len() as int) == c3[c]);
        }
    }
    let s4 = spec_create_movie_table()[4];
    assert(s4.subrange(0, 19) =~= "CREATE TABLE "@ + "image"@ + "("@);
    let c4 = seq!["id INTEGER PRIMARY KEY"@, "path TEXT"@, "movie_id INTEGER"@, "FOREIGN KEY(movie_id) REFERENCES movie(id)"@];
    assert(s4.subrange(19, 41) =~= c4[0]);
    assert(s4.subrange(43, 52) =~= c4[1]);
    assert(s4.subrange(54, 70) =~= c4[2]);
    assert(s4.subrange(84, 126) =~= c4[3]);
    assert forall|c: int| 0 <= c < c4.len() implies has_infix(s4, #[trigger] c4[c]) by {
        if c == 0 {
            assert(s4.subrange(19, 19 + c4[c].len() as int) == c4[c]);
        }
        if c == 1 {
            assert(s4.subrange(43, 43 + c4[c].len() as int) == c4[c]);
        }
        if c == 2 {
            assert(s4.subrange(54, 54 + c4[c].len() as int) == c4[c]);
        }
        if c == 3 {
            assert(s4.subrange(84, 84 + c4[c].len() as int) == c4[c]);
        }
    }
    let s5 = spec_create_movie_table()[5];
    assert(s5.subrange(0, 20) =~= "CREATE TABLE "@ + "status"@ + "("@);
    let c5 = seq!["id INTEGER PRIMARY KEY"@, "name TEXT"@];
    assert(s5.subrange(20, 42) =~= c5[0]);
    assert(s5.subrange(44, 53) =~= c5[1]);
    assert forall|c: int| 0 <= c < c5.len() implies has_infix(s5, #[trigger] c5[c]) by {
        if c == 0 {
            assert(s5.subrange(20, 20 + c5[c].len() as int) == c5[c]);
        }
        if c == 1 {
            assert(s5.subrange(44, 44 + c5[c].len() as int) == c5[c]);
        }
    }
    let s6 = spec_create_movie_table()[6];
    assert(s6.subrange(0, 19) =~= "CREATE TABLE "@ + "queue"@ + "("@);
    let c6 = seq!["id INTEGER PRIMARY KEY"@, "movie_id INTEGER"@, "status_id INTEGER"@, "FOREIGN KEY(movie_id) REFERENCES movie(id)"@, "FOREIGN KEY(status_id) REFERENCES status(id)"@];
    assert(s6.subrange(19, 41) =~= c6[0]);
    assert(s6.subrange(43, 59) =~= c6[1]);
    assert(s6.subrange(61, 78) =~= c6[2]);
    assert(s6.subrange(92, 134) =~= c6[3]);
    assert(s6.subrange(148, 192) =~= c6[4]);
    assert forall|c: int| 0 <= c < c6.len() implies has_infix(s6, #[trigger] c6[c]) by {
        if c == 0 {
            assert(s6.subrange(19, 19 + c6[c].len() as int) == c6[c]);
        }
        if c == 1 {
            assert(s6.subrange(43, 43 + c6[c].len() as int) == c6[c]);
        }
        if c == 2 {
            assert(s6.subrange(61, 61 + c6[c].len() as int) == c6[c]);
        }
        if c == 3 {
            assert(s6.subrange(92, 92 + c6[c].len() as int) == c6[c]);
        }
        if c == 4 {
            assert(s6.subrange(148, 148 + c6[c].len() as int) == c6[c]);
        }
    }
    let s7 = spec_create_movie_table()[7];
    assert(s7.subrange(0, 20) =~= "CREATE TABLE "@ + "config"@ + "("@);
    let c7 = seq!["id INTEGER PRIMARY KEY"@, "key TEXT"@, "value TEXT"@];
    assert(s7.subrange(20, 42) =~= c7[0]);
    assert(s7.subrange(44, 52) =~= c7[1]);
    assert(s7.subrange(54, 64) =~= c7[2]);
    assert forall|c: int| 0 <= c < c7.len() implies has_infix(s7, #[trigger] c7[c]) by {
        if c == 0 {
            assert(s7.subrange(20, 20 + c7[c].len() as int) == c7[c]);
        }
        if c == 1 {
            assert(s7.subrange(44, 44 + c7[c].len() as int) == c7[c]);
        }
        if c == 2 {
            assert(s7.subrange(54, 54 + c7[c].len() as int) == c7[c]);
        }
    }
}

/// The statements that create a new database, stated one by one.
pub proof fn law_new_database_statements()
    ensures
        spec_create_movie_table().len() == 9,
        spec_create_movie_table()[0] == "CREATE TABLE genre(id INTEGER PRIMARY KEY, name TEXT)"@,
        spec_create_movie_table()[1] == "CREATE TABLE movie(id INTEGER PRIMARY KEY,\n            title TEXT, date_added TEXT, yify_id INTEGER,genre_id INTEGER,rating REAL,\n            youtube_url TEXT, imdb_url TEXT,description TEXT,year INTEGER,\n           FOREIGN KEY(genre_id) REFERENCES genre(id))"@,
        spec_create_movie_table()[2] == "CREATE TABLE torrent(id INTEGER PRIMARY KEY, link TEXT, hashTEXT,\n            movie_id INTEGER,quality TEXT,\n            FOREIGN KEY(movie_id) REFERENCES movie(id))"@,
        spec_create_movie_table()[3] == "CREATE TABLE migration(id INTEGER PRIMARY KEY, version INTEGER)"@,
        spec_create_movie_table()[4] == "CREATE TABLE image(id INTEGER PRIMARY KEY, path TEXT, movie_id INTEGER,\n            FOREIGN KEY(movie_id) REFERENCES movie(id))"@,
        spec_create_movie_table()[5] == "CREATE TABLE status(id INTEGER PRIMARY KEY, name TEXT)"@,
        spec_create_movie_table()[6] == "CREATE TABLE queue(id INTEGER PRIMARY KEY, movie_id INTEGER, status_id INTEGER,\n            FOREIGN KEY(movie_id) REFERENCES movie(id),\n            FOREIGN KEY(status_id) REFERENCES status(id))"@,
        spec_create_movie_table()[7] == "CREATE TABLE config(id INTEGER PRIMARY KEY, key TEXT, value TEXT)"@,
        spec_create_movie_table()[8] == "INSERT INTO migration(version) values(1)"@,
{
}

} // verus!
