use movie_db::migration::{
    decide_migration, movie_changes, plan_migrations, MigrationStep, INITIAL_SCHEMA_VERSION,
};

#[test]
fn movie_changes_are_versions_two_to_thirty() {
    let changes = movie_changes();
    assert_eq!(changes.len(), 29);
    for (i, change) in changes.iter().enumerate() {
        assert_eq!(change.0, i as i32 + 2);
    }
    assert_eq!(changes[0], (2, "INSERT INTO genre(name) VALUES('Animation')"));
    assert_eq!(changes[24], (26, "INSERT INTO genre(name) VALUES('News')"));
    assert_eq!(changes[25], (27, "INSERT INTO status(name) VALUES('New')"));
    assert_eq!(changes[28], (30, "INSERT INTO status(name) VALUES('Error')"));
}

#[test]
fn newer_change_is_applied() {
    assert_eq!(
        decide_migration(5, (6, "X")),
        MigrationStep::Apply { version: 6, sql: "X" }
    );
}

#[test]
fn equal_or_older_change_is_skipped() {
    assert_eq!(decide_migration(6, (6, "X")), MigrationStep::Skip { version: 6, latest: 6 });
    assert_eq!(decide_migration(9, (3, "X")), MigrationStep::Skip { version: 3, latest: 9 });
}

#[test]
fn fresh_database_applies_every_movie_change() {
    let changes = movie_changes();
    let steps = plan_migrations(INITIAL_SCHEMA_VERSION, &changes);
    assert_eq!(steps.len(), changes.len());
    for (step, change) in steps.iter().zip(changes.iter()) {
        assert_eq!(*step, MigrationStep::Apply { version: change.0, sql: change.1 });
    }
}

#[test]
fn partly_migrated_database_applies_only_newer_changes() {
    let changes = movie_changes();
    let steps = plan_migrations(26, &changes);
    for (i, step) in steps.iter().enumerate() {
        if i < 25 {
            assert_eq!(*step, MigrationStep::Skip { version: i as i32 + 2, latest: 26 });
        } else {
            assert!(matches!(step, MigrationStep::Apply { .. }));
        }
    }
    assert_eq!(steps[25], MigrationStep::Apply { version: 27, sql: "INSERT INTO status(name) VALUES('New')" });
}

#[test]
fn up_to_date_database_applies_nothing() {
    let changes = movie_changes();
    let steps = plan_migrations(30, &changes);
    assert!(steps.iter().all(|s| matches!(s, MigrationStep::Skip { latest: 30, .. })));
}

#[test]
fn rerun_after_unsorted_run_applies_nothing() {
    let changes = vec![(5, "a"), (3, "b"), (8, "c"), (7, "d")];
    let steps = plan_migrations(4, &changes);
    assert_eq!(
        steps,
        vec![
            MigrationStep::Apply { version: 5, sql: "a" },
            MigrationStep::Skip { version: 3, latest: 5 },
            MigrationStep::Apply { version: 8, sql: "c" },
            MigrationStep::Skip { version: 7, latest: 8 },
        ]
    );
    let again = plan_migrations(8, &changes);
    assert!(again.iter().all(|s| matches!(s, MigrationStep::Skip { .. })));
}

#[test]
fn empty_change_list_plans_nothing() {
    assert!(plan_migrations(1, &Vec::new()).is_empty());
}
