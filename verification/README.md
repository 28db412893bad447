# secret_store

A small local store of secrets. Passwords are encrypted under a master key
(magic_crypt, AES-256) and kept in an SQLite table; a desktop window (eframe)
creates, updates, deletes and reveals them.

- `src/` — the library, written in Verus:
  - `types.rs`: `Secret` and the decimal notation of identifiers;
  - `crypto.rs`: encryption and decryption under the master key;
  - `database.rs`: `Store`, the SQLite table of secrets, and the reading of rows;
  - `forms.rs`: the creation, update and decryption forms and what their buttons do;
  - `session.rs`: the state of the main window and what its buttons do.
- `app/` — the window itself: it draws the state of the library and hands it the clicks.
- `tests/` — tests of the library.
