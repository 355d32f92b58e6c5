//! Logic of a movie catalogue that follows a public listing of films: the
//! schema of its database and the changes that bring an old database up to
//! date, the plan of an import run, and the values that its dialogs show.
pub mod migration;
pub mod schema;
pub mod yify;
pub mod images;
pub mod import;
pub mod preferences;
pub mod decimal;
pub mod detail;
