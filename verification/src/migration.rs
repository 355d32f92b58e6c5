//! The ordered list of schema changes and the rule that decides which of
//! them a database still needs.
use vstd::prelude::*;

verus! {

/// The version that a freshly created database records in its `migration` table.
pub const INITIAL_SCHEMA_VERSION: i32 = 1;

/// The changes of the movie database, oldest first, as (version, statement) pairs.
pub open spec fn spec_movie_changes() -> Seq<(i32, Seq<char>)> {
    seq![
        (2i32, "INSERT INTO genre(name) VALUES('Animation')"@),
        (3i32, "INSERT INTO genre(name) VALUES('Comedy')"@),
        (4i32, "INSERT INTO genre(name) VALUES('Action')"@),
        (5i32, "INSERT INTO genre(name) VALUES('Adventure')"@),
        (6i32, "INSERT INTO genre(name) VALUES('Drama')"@),
        (7i32, "INSERT INTO genre(name) VALUES('Horror')"@),
        (8i32, "INSERT INTO genre(name) VALUES('Sci-Fi')"@),
        (9i32, "INSERT INTO genre(name) VALUES('Musical')"@),
        (10i32, "INSERT INTO genre(name) VALUES('Crime')"@),
        (11i32, "INSERT INTO genre(name) VALUES('Fantasy')"@),
        (12i32, "INSERT INTO genre(name) VALUES('Documentary')"@),
        (13i32, "INSERT INTO genre(name) VALUES('Biography')"@),
        (14i32, "INSERT INTO genre(name) VALUES('Sport')"@),
        (15i32, "INSERT INTO genre(name) VALUES('Thriller')"@),
        (16i32, "INSERT INTO genre(name) VALUES('Romance')"@),
        (17i32, "INSERT INTO genre(name) VALUES('Mystery')"@),
        (18i32, "INSERT INTO genre(name) VALUES('Western')"@),
        (19i32, "INSERT INTO genre(name) VALUES('Family')"@),
        (20i32, "INSERT INTO genre(name) VALUES('Music')"@),
        (21i32, "INSERT INTO genre(name) VALUES('War')"@),
        (22i32, "INSERT INTO genre(name) VALUES('History')"@),
        (23i32, "INSERT INTO genre(name) VALUES('Reality-TV')"@),
        (24i32, "INSERT INTO genre(name) VALUES('Film-Noir')"@),
        (25i32, "INSERT INTO genre(name) VALUES('Talk-Show')"@),
        (26i32, "INSERT INTO genre(name) VALUES('News')"@),
        (27i32, "INSERT INTO status(name) VALUES('New')"@),
        (28i32, "INSERT INTO status(name) VALUES('Downloading')"@),
        (29i32, "INSERT INTO status(name) VALUES('Complete')"@),
        (30i32, "INSERT INTO status(name) VALUES('Error')"@)
    ]
}

/// A list of changes with each statement taken by its characters.
pub open spec fn change_views(changes: Seq<(i32, &'static str)>) -> Seq<(i32, Seq<char>)> {
    changes.map_values(|c: (i32, &'static str)| (c.0, c.1@))
}

/// The versions of a list of changes, in order.
pub open spec fn change_versions(changes: Seq<(i32, &'static str)>) -> Seq<i32> {
    changes.map_values(|c: (i32, &'static str)| c.0)
}

/// The schema changes of the movie database: genres, then statuses, each
/// insert carrying the version that it brings the database to.
pub fn movie_changes() -> (changes: Vec<(i32, &'static str)>)
    ensures
        change_views(changes@) == spec_movie_changes(),
{
    let changes = vec![
        (2, "INSERT INTO genre(name) VALUES('Animation')"),
        (3, "INSERT INTO genre(name) VALUES('Comedy')"),
        (4, "INSERT INTO genre(name) VALUES('Action')"),
        (5, "INSERT INTO genre(name) VALUES('Adventure')"),
        (6, "INSERT INTO genre(name) VALUES('Drama')"),
        (7, "INSERT INTO genre(name) VALUES('Horror')"),
        (8, "INSERT INTO genre(name) VALUES('Sci-Fi')"),
        (9, "INSERT INTO genre(name) VALUES('Musical')"),
        (10, "INSERT INTO genre(name) VALUES('Crime')"),
        (11, "INSERT INTO genre(name) VALUES('Fantasy')"),
        (12, "INSERT INTO genre(name) VALUES('Documentary')"),
        (13, "INSERT INTO genre(name) VALUES('Biography')"),
        (14, "INSERT INTO genre(name) VALUES('Sport')"),
        (15, "INSERT INTO genre(name) VALUES('Thriller')"),
        (16, "INSERT INTO genre(name) VALUES('Romance')"),
        (17, "INSERT INTO genre(name) VALUES('Mystery')"),
        (18, "INSERT INTO genre(name) VALUES('Western')"),
        (19, "INSERT INTO genre(name) VALUES('Family')"),
        (20, "INSERT INTO genre(name) VALUES('Music')"),
        (21, "INSERT INTO genre(name) VALUES('War')"),
        (22, "INSERT INTO genre(name) VALUES('History')"),
        (23, "INSERT INTO genre(name) VALUES('Reality-TV')"),
        (24, "INSERT INTO genre(name) VALUES('Film-Noir')"),
        (25, "INSERT INTO genre(name) VALUES('Talk-Show')"),
        (26, "INSERT INTO genre(name) VALUES('News')"),
        (27, "INSERT INTO status(name) VALUES('New')"),
        (28, "INSERT INTO status(name) VALUES('Downloading')"),
        (29, "INSERT INTO status(name) VALUES('Complete')"),
        (30, "INSERT INTO status(name) VALUES('Error')"),
    ];
    proof {
        assert(change_views(changes@) =~= spec_movie_changes());
    }
    changes
}


/// What a migration run does with one change.
#[derive(Debug, Clone, Copy, PartialEq, Eq)]
pub enum MigrationStep {
    /// Execute `sql`, then record `version` as the database's latest version.
    Apply { version: i32, sql: &'static str },
    /// Leave the change out: `version` is not newer than `latest`.
    Skip { version: i32, latest: i32 },
}

/// The step for one change, given the latest version recorded so far.
pub open spec fn spec_migration_step(latest: i32, change: (i32, &'static str)) -> MigrationStep {
    if change.0 > latest {
        MigrationStep::Apply { version: change.0, sql: change.1 }
    } else {
        MigrationStep::Skip { version: change.0, latest }
    }
}

/// The latest version after going through changes with `versions`, starting
/// from `latest`: each change newer than the version so far becomes it.
pub open spec fn version_after(latest: i32, versions: Seq<i32>) -> i32
    decreases versions.len(),
{
    if versions.len() == 0 {
        latest
    } else {
        let before = version_after(latest, versions.drop_last());
        if versions.last() > before {
            versions.last()
        } else {
            before
        }
    }
}

/// The steps of a migration run over `changes` from `latest`, one per change.
pub open spec fn spec_migration_plan(latest: i32, changes: Seq<(i32, &'static str)>) -> Seq<MigrationStep> {
    Seq::new(
        changes.len(),
        |i: int| spec_migration_step(version_after(latest, change_versions(changes).take(i)), changes[i]),
    )
}

/// Decides one change: it is applied exactly when its version is newer than
/// the latest version recorded.
pub fn decide_migration(latest: i32, change: (i32, &'static str)) -> (step: MigrationStep)
    ensures
        step == spec_migration_step(latest, change),
{
    if change.0 > latest {
        MigrationStep::Apply { version: change.0, sql: change.1 }
    } else {
        MigrationStep::Skip { version: change.0, latest }
    }
}

/// The steps that bring a database whose latest recorded version is `latest`
/// up to date with `changes`, in the order of `changes`; the latest version
/// rises with each applied change.
pub fn plan_migrations(latest: i32, changes: &Vec<(i32, &'static str)>) -> (steps: Vec<MigrationStep>)
    ensures
        steps@ == spec_migration_plan(latest, changes@),
{
    let mut steps: Vec<MigrationStep> = Vec::new();
    let mut version: i32 = latest;
    let mut i: usize = 0;
    while i < changes.len()
        invariant
            0 <= i <= changes@.len(),
            steps@.len() == i,
            version == version_after(latest, change_versions(changes@).take(i as int)),
            forall|k: int| 0 <= k < i ==> steps@[k] == spec_migration_plan(latest, changes@)[k],
        decreases changes@.len() - i,
    {
        let change = changes[i];
        let step = decide_migration(version, change);
        if change.0 > version {
            version = change.0;
        }
        steps.push(step);
        proof {
            let vs = change_versions(changes@);
            assert(vs.take(i + 1).drop_last() =~= vs.take(i as int));
            assert(vs.take(i + 1).last() == change.0);
        }
        i = i + 1;
    }
    proof {
        assert(steps@ =~= spec_migration_plan(latest, changes@));
    }
    steps
}


/// A version list whose entries strictly increase.
pub open spec fn strictly_increasing(versions: Seq<i32>) -> bool {
    forall|i: int, j: int| 0 <= i < j < versions.len() ==> versions[i] < versions[j]
}

/// The version that a run leaves is the largest of the starting version and
/// the versions of all the changes it went through.
pub proof fn law_final_version_is_maximum(latest: i32, versions: Seq<i32>)
    ensures
        latest <= version_after(latest, versions),
        forall|k: int| 0 <= k < versions.len() ==> versions[k] <= version_after(latest, versions),
        version_after(latest, versions) == latest || exists|k: int|
            0 <= k < versions.len() && versions[k] == version_after(latest, versions),
    decreases versions.len(),
{
    if versions.len() > 0 {
        let init = versions.drop_last();
        law_final_version_is_maximum(latest, init);
        assert forall|k: int| 0 <= k < versions.len() implies versions[k] <= version_after(latest, versions) by {
            if k < versions.len() - 1 {
                assert(versions[k] == init[k]);
            }
        }
        if version_after(latest, versions) != latest {
            if versions.last() > version_after(latest, init) {
                assert(versions[versions.len() - 1] == version_after(latest, versions));
            } else {
                let k = choose|k: int| 0 <= k < init.len() && init[k] == version_after(latest, init);
                assert(versions[k] == init[k]);
            }
        }
    }
}

/// Along a run, the latest version never goes down.
proof fn lemma_version_after_prefix_monotone(latest: i32, versions: Seq<i32>, i: int, j: int)
    requires
        0 <= i <= j <= versions.len(),
    ensures
        version_after(latest, versions.take(i)) <= version_after(latest, versions.take(j)),
    decreases j - i,
{
    if i < j {
        lemma_version_after_prefix_monotone(latest, versions, i, j - 1);
        assert(versions.take(j).drop_last() =~= versions.take(j - 1));
    }
}

/// A run applies only changes newer than the version it started from, and
/// the changes it applies come in strictly increasing version order.
pub proof fn law_applied_versions_increase(latest: i32, changes: Seq<(i32, &'static str)>, i: int, j: int)
    requires
        0 <= i < j < changes.len(),
        spec_migration_plan(latest, changes)[i] is Apply,
        spec_migration_plan(latest, changes)[j] is Apply,
    ensures
        latest < changes[i].0,
        changes[i].0 < changes[j].0,
{
    let vs = change_versions(changes);
    law_final_version_is_maximum(latest, vs.take(i));
    assert(vs.take(i + 1).drop_last() =~= vs.take(i));
    assert(vs.take(i + 1).last() == changes[i].0);
    lemma_version_after_prefix_monotone(latest, vs, i + 1, j);
}

/// Every change a run applies is newer than the version it started from.
pub proof fn law_applies_only_newer(latest: i32, changes: Seq<(i32, &'static str)>, i: int)
    requires
        0 <= i < changes.len(),
        spec_migration_plan(latest, changes)[i] is Apply,
    ensures
        latest < changes[i].0,
{
    law_final_version_is_maximum(latest, change_versions(changes).take(i));
}

/// Running the same changes again from the version a run left applies nothing.
pub proof fn law_rerun_applies_nothing(latest: i32, changes: Seq<(i32, &'static str)>)
    ensures
        forall|i: int| #![trigger changes[i]] 0 <= i < changes.len() ==>
            spec_migration_plan(version_after(latest, change_versions(changes)), changes)[i] is Skip,
{
    let vs = change_versions(changes);
    let last = version_after(latest, vs);
    law_final_version_is_maximum(latest, vs);
    assert forall|i: int| #![trigger changes[i]] 0 <= i < changes.len() implies
        spec_migration_plan(last, changes)[i] is Skip by {
        law_final_version_is_maximum(last, vs.take(i));
        assert(vs[i] == changes[i].0);
    }
}

/// When the versions of the changes strictly increase, a run applies exactly
/// the changes newer than the version it started from.
pub proof fn law_sorted_changes_apply_exactly_newer(latest: i32, changes: Seq<(i32, &'static str)>)
    requires
        strictly_increasing(change_versions(changes)),
    ensures
        forall|i: int| #![trigger changes[i]] 0 <= i < changes.len() ==>
            (spec_migration_plan(latest, changes)[i] is Apply <==> latest < changes[i].0),
{
    let vs = change_versions(changes);
    assert forall|i: int| #![trigger changes[i]] 0 <= i < changes.len() implies
        (spec_migration_plan(latest, changes)[i] is Apply <==> latest < changes[i].0) by {
        let pre = vs.take(i);
        law_final_version_is_maximum(latest, pre);
        assert(vs[i] == changes[i].0);
        if version_after(latest, pre) != latest {
            let k = choose|k: int| 0 <= k < pre.len() && pre[k] == version_after(latest, pre);
            assert(pre[k] == vs[k]);
        }
    }
}


/// The movie changes carry the versions 2, 3, ..., 30, in this order.
pub proof fn law_movie_change_versions()
    ensures
        spec_movie_changes().len() == 29,
        forall|i: int| 0 <= i < 29 ==> #[trigger] spec_movie_changes()[i].0 == i + 2,
{
    let cs = spec_movie_changes();
    assert forall|i: int| 0 <= i < 29 implies #[trigger] cs[i].0 == i + 2 by {
    }
}

/// A database that was just created, at the initial version, gets every
/// movie change applied, in order, each recorded with its own version.
pub proof fn law_fresh_database_applies_every_change(changes: Seq<(i32, &'static str)>)
    requires
        change_views(changes) == spec_movie_changes(),
    ensures
        forall|i: int| #![trigger changes[i]] 0 <= i < changes.len() ==>
            spec_migration_plan(INITIAL_SCHEMA_VERSION, changes)[i]
                == (MigrationStep::Apply { version: changes[i].0, sql: changes[i].1 }),
{
    law_movie_change_versions();
    let vs = change_versions(changes);
    assert forall|i: int| #![trigger changes[i]] 0 <= i < changes.len() implies vs[i] == i + 2 by {
        assert(change_views(changes)[i].0 == changes[i].0);
    }
    assert(strictly_increasing(vs)) by {
        assert forall|i: int, j: int| 0 <= i < j < vs.len() implies vs[i] < vs[j] by {
            assert(vs[i] == changes[i].0);
            assert(vs[j] == changes[j].0);
        }
    }
    law_sorted_changes_apply_exactly_newer(INITIAL_SCHEMA_VERSION, changes);
    assert forall|i: int| #![trigger changes[i]] 0 <= i < changes.len() implies
        spec_migration_plan(INITIAL_SCHEMA_VERSION, changes)[i]
            == (MigrationStep::Apply { version: changes[i].0, sql: changes[i].1 }) by {
        assert(vs[i] == changes[i].0);
    }
}


/// The statement text before the name in an insert of a genre.
pub const GENRE_INSERT_PREFIX: &'static str = "INSERT INTO genre(name) VALUES('";

/// The statement text after the name in an insert of a genre or status.
pub const INSERT_SUFFIX: &'static str = "')";

/// The genres that the catalogue knows from the start, in the order the
/// changes add them.
pub open spec fn genre_names() -> Seq<Seq<char>> {
    seq!["Animation"@, "Comedy"@, "Action"@, "Adventure"@, "Drama"@, "Horror"@, "Sci-Fi"@, "Musical"@, "Crime"@, "Fantasy"@, "Documentary"@, "Biography"@, "Sport"@, "Thriller"@, "Romance"@, "Mystery"@, "Western"@, "Family"@, "Music"@, "War"@, "History"@, "Reality-TV"@, "Film-Noir"@, "Talk-Show"@, "News"@]
}

/// The first 25 changes add the known genres, one each, in order, the genre
/// at index `i` with version `i + 2`; no genre is added twice.
pub proof fn law_first_changes_add_genres()
    ensures
        genre_names().len() == 25,
        forall|i: int| 0 <= i < 25 ==> (#[trigger] spec_movie_changes()[i]).0 == i + 2
            && spec_movie_changes()[i].1 == GENRE_INSERT_PREFIX@ + genre_names()[i] + INSERT_SUFFIX@,
        forall|i: int, j: int| 0 <= i < j < 25 ==> #[trigger] genre_names()[i] != #[trigger] genre_names()[j],
{
    reveal_strlit("INSERT INTO genre(name) VALUES('");
    reveal_strlit("')");
    reveal_strlit("Animation");
    reveal_strlit("Comedy");
    reveal_strlit("Action");
    reveal_strlit("Adventure");
    reveal_strlit("Drama");
    reveal_strlit("Horror");
    reveal_strlit("Sci-Fi");
    reveal_strlit("Musical");
    reveal_strlit("Crime");
    reveal_strlit("Fantasy");
    reveal_strlit("Documentary");
    reveal_strlit("Biography");
    reveal_strlit("Sport");
    reveal_strlit("Thriller");
    reveal_strlit("Romance");
    reveal_strlit("Mystery");
    reveal_strlit("Western");
    reveal_strlit("Family");
    reveal_strlit("Music");
    reveal_strlit("War");
    reveal_strlit("History");
    reveal_strlit("Reality-TV");
    reveal_strlit("Film-Noir");
    reveal_strlit("Talk-Show");
    reveal_strlit("News");
    reveal_strlit("INSERT INTO genre(name) VALUES('Animation')");
    reveal_strlit("INSERT INTO genre(name) VALUES('Comedy')");
    reveal_strlit("INSERT INTO genre(name) VALUES('Action')");
    reveal_strlit("INSERT INTO genre(name) VALUES('Adventure')");
    reveal_strlit("INSERT INTO genre(name) VALUES('Drama')");
    reveal_strlit("INSERT INTO genre(name) VALUES('Horror')");
    reveal_strlit("INSERT INTO genre(name) VALUES('Sci-Fi')");
    reveal_strlit("INSERT INTO genre(name) VALUES('Musical')");
    reveal_strlit("INSERT INTO genre(name) VALUES('Crime')");
    reveal_strlit("INSERT INTO genre(name) VALUES('Fantasy')");
    reveal_strlit("INSERT INTO genre(name) VALUES('Documentary')");
    reveal_strlit("INSERT INTO genre(name) VALUES('Biography')");
    reveal_strlit("INSERT INTO genre(name) VALUES('Sport')");
    reveal_strlit("INSERT INTO genre(name) VALUES('Thriller')");
    reveal_strlit("INSERT INTO genre(name) VALUES('Romance')");
    reveal_strlit("INSERT INTO genre(name) VALUES('Mystery')");
    reveal_strlit("INSERT INTO genre(name) VALUES('Western')");
    reveal_strlit("INSERT INTO genre(name) VALUES('Family')");
    reveal_strlit("INSERT INTO genre(name) VALUES('Music')");
    reveal_strlit("INSERT INTO genre(name) VALUES('War')");
    reveal_strlit("INSERT INTO genre(name) VALUES('History')");
    reveal_strlit("INSERT INTO genre(name) VALUES('Reality-TV')");
    reveal_strlit("INSERT INTO genre(name) VALUES('Film-Noir')");
    reveal_strlit("INSERT INTO genre(name) VALUES('Talk-Show')");
    reveal_strlit("INSERT INTO genre(name) VALUES('News')");
    law_movie_change_versions();
    assert forall|i: int| 0 <= i < 25 implies (#[trigger] spec_movie_changes()[i]).0 == i + 2
        && spec_movie_changes()[i].1 == GENRE_INSERT_PREFIX@ + genre_names()[i] + INSERT_SUFFIX@ by {
        if i == 0 {
            assert(spec_movie_changes()[0].1 =~= GENRE_INSERT_PREFIX@ + genre_names()[0] + INSERT_SUFFIX@);
        } else if i == 1 {
            assert(spec_movie_changes()[1].1 =~= GENRE_INSERT_PREFIX@ + genre_names()[1] + INSERT_SUFFIX@);
        } else if i == 2 {
            assert(spec_movie_changes()[2].1 =~= GENRE_INSERT_PREFIX@ + genre_names()[2] + INSERT_SUFFIX@);
        } else if i == 3 {
            assert(spec_movie_changes()[3].1 =~= GENRE_INSERT_PREFIX@ + genre_names()[3] + INSERT_SUFFIX@);
        } else if i == 4 {
            assert(spec_movie_changes()[4].1 =~= GENRE_INSERT_PREFIX@ + genre_names()[4] + INSERT_SUFFIX@);
        } else if i == 5 {
            assert(spec_movie_changes()[5].1 =~= GENRE_INSERT_PREFIX@ + genre_names()[5] + INSERT_SUFFIX@);
        } else if i == 6 {
            assert(spec_movie_changes()[6].1 =~= GENRE_INSERT_PREFIX@ + genre_names()[6] + INSERT_SUFFIX@);
        } else if i == 7 {
            assert(spec_movie_changes()[7].1 =~= GENRE_INSERT_PREFIX@ + genre_names()[7] + INSERT_SUFFIX@);
        } else if i == 8 {
            assert(spec_movie_changes()[8].1 =~= GENRE_INSERT_PREFIX@ + genre_names()[8] + INSERT_SUFFIX@);
        } else if i == 9 {
            assert(spec_movie_changes()[9].1 =~= GENRE_INSERT_PREFIX@ + genre_names()[9] + INSERT_SUFFIX@);
        } else if i == 10 {
            assert(spec_movie_changes()[10].1 =~= GENRE_INSERT_PREFIX@ + genre_names()[10] + INSERT_SUFFIX@);
        } else if i == 11 {
            assert(spec_movie_changes()[11].1 =~= GENRE_INSERT_PREFIX@ + genre_names()[11] + INSERT_SUFFIX@);
        } else if i == 12 {
            assert(spec_movie_changes()[12].1 =~= GENRE_INSERT_PREFIX@ + genre_names()[12] + INSERT_SUFFIX@);
        } else if i == 13 {
            assert(spec_movie_changes()[13].1 =~= GENRE_INSERT_PREFIX@ + genre_names()[13] + INSERT_SUFFIX@);
        } else if i == 14 {
            assert(spec_movie_changes()[14].1 =~= GENRE_INSERT_PREFIX@ + genre_names()[14] + INSERT_SUFFIX@);
        } else if i == 15 {
            assert(spec_movie_changes()[15].1 =~= GENRE_INSERT_PREFIX@ + genre_names()[15] + INSERT_SUFFIX@);
        } else if i == 16 {
            assert(spec_movie_changes()[16].1 =~= GENRE_INSERT_PREFIX@ + genre_names()[16] + INSERT_SUFFIX@);
        } else if i == 17 {
            assert(spec_movie_changes()[17].1 =~= GENRE_INSERT_PREFIX@ + genre_names()[17] + INSERT_SUFFIX@);
        } else if i == 18 {
            assert(spec_movie_changes()[18].1 =~= GENRE_INSERT_PREFIX@ + genre_names()[18] + INSERT_SUFFIX@);
        } else if i == 19 {
            assert(spec_movie_changes()[19].1 =~= GENRE_INSERT_PREFIX@ + genre_names()[19] + INSERT_SUFFIX@);
        } else if i == 20 {
            assert(spec_movie_changes()[20].1 =~= GENRE_INSERT_PREFIX@ + genre_names()[20] + INSERT_SUFFIX@);
        } else if i == 21 {
            assert(spec_movie_changes()[21].1 =~= GENRE_INSERT_PREFIX@ + genre_names()[21] + INSERT_SUFFIX@);
        } else if i == 22 {
            assert(spec_movie_changes()[22].1 =~= GENRE_INSERT_PREFIX@ + genre_names()[22] + INSERT_SUFFIX@);
        } else if i == 23 {
            assert(spec_movie_changes()[23].1 =~= GENRE_INSERT_PREFIX@ + genre_names()[23] + INSERT_SUFFIX@);
        } else if i == 24 {
            assert(spec_movie_changes()[24].1 =~= GENRE_INSERT_PREFIX@ + genre_names()[24] + INSERT_SUFFIX@);
        }
    }
    assert forall|i: int, j: int| 0 <= i < j < 25 implies #[trigger] genre_names()[i] != #[trigger] genre_names()[j] by {
        if genre_names()[i] == genre_names()[j] {
            assert(genre_names()[i].len() == genre_names()[j].len());
            assert(genre_names()[i][0] == genre_names()[j][0]);
            assert(genre_names()[i][1] == genre_names()[j][1]);
            assert(genre_names()[i][2] == genre_names()[j][2]);
        }
    }
}

} // verus!
