# password_manager

A desktop password manager: website accounts and TOTP keys kept in an
encrypted SQLite database, shown in an iced window.

- `src/` is the library, verified with Verus. It holds the records
  (`models`: accounts, TOTP keys, identifiers), the forms (`forms`), and the
  screens as state machines (`password_screen`, `totp_screen`,
  `unlocked_screen`, `application`). A screen's `update` takes a message and
  hands back a command for the database; the caller reports the outcome
  back. Identifiers come from `uuid`, secrets are decoded and codes computed
  with `totp-rs`.
- `app/` is the program: the iced views and subscription, the SQLite
  database (`rusqlite`), the clock, and the loop that runs the commands.
- `tests/` runs the library on concrete values.
