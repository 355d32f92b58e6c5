use movie_db::schema::{create_movie_table_statements, database_setup, DatabaseSetup};

#[test]
fn new_database_statements() {
    let statements = create_movie_table_statements();
    assert_eq!(statements.len(), 9);
    assert_eq!(statements[0], "CREATE TABLE genre(id INTEGER PRIMARY KEY, name TEXT)");
    assert_eq!(statements[3], "CREATE TABLE migration(id INTEGER PRIMARY KEY, version INTEGER)");
    assert_eq!(statements[7], "CREATE TABLE config(id INTEGER PRIMARY KEY, key TEXT, value TEXT)");
    assert_eq!(statements[8], "INSERT INTO migration(version) values(1)");
    assert!(statements[1].starts_with("CREATE TABLE movie(id INTEGER PRIMARY KEY,\n"));
}

#[test]
fn existing_database_is_migrated() {
    assert_eq!(database_setup(true), DatabaseSetup::Migrate);
}

#[test]
fn missing_database_is_created() {
    assert_eq!(database_setup(false), DatabaseSetup::Create);
}
