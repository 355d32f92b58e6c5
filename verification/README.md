# movie_db

A catalogue that follows a public listing of films and keeps them in an
SQLite database, with covers saved under `images/`.

`src/` is the verified library (Verus):

- `migration` — the ordered schema changes and the rule that decides which
  of them a database still needs, with laws on the versions a run applies.
- `schema` — the statements that create a new database, and the choice
  between creating and migrating one.
- `yify` — the listing's values and the URL it is fetched from.
- `images` — the file type read off a cover's URL and the file name it is
  saved under.
- `import` — an import run as a state machine: the caller performs each
  action and hands back what came of it.
- `preferences`, `detail` — the statements, texts and queue entries of the
  two dialogs.
- `decimal` — decimal text of integers, written and read back.

`app/` is the program around it: database, network, files, threads and the
GTK dialogs (the dialog modules are not reached from `main.rs`).
