# ham_logbook

A logbook for amateur-radio contacts (QSOs) with generic, DMR, FT8, D-STAR
and YSF (C4FM) metadata, ADIF import and export, and a SQLite store.

The library under `src/` is written in Verus and verified: every public
function carries a contract over mathematical models of its values.

- `adif/`: the ADIF tag parser and writer (parsing what the writer wrote
  gives the document back), and the conversion between ADIF records and
  QSOs with their metadata. D-STAR and System Fusion are written as
  `DIGITALVOICE` with the submode `DSTAR` or `C4FM`, and either form is
  read back as the same QSO. `adif/round_trip/` proves, for every mode, that
  a QSO in the form an import leaves it, exported and imported again, comes
  back as itself, and that an import gives a QSO in that form wherever the
  texts it uppercases are ASCII, its unknown fields are named apart from the
  fields read for its mode and its date lies in years 0 to 9999.
- `domain/`: QSOs and the validation of each mode's metadata.
- `database/`: the store's rules: search filters and pages, planning an
  ADIF import (new, duplicate and invalid records), export selections,
  schema versions and the health assessment of a database file.
- `logbook/`: the decisions of the front end: what the operator types
  (dates, frequencies, filters, paths), paging, the editor and its messages,
  the ADIF import waiting for confirmation and the window's exit flow.
- `frequency.rs`, `calendar.rs`, `text.rs`: MHz text without floating
  point, UTC dates through `chrono`, and character-level text handling.

`app/` is the command-line program around the library: the SQLite store
(`rusqlite`), the configuration file (`toml`/`serde`), file paths and I/O.
`tests/` exercises the library on concrete values.
