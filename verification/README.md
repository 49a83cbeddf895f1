# lib-ime

The input engine of a Hangul-aware markdown editor, written in Verus.
The library's functions carry `requires`/`ensures` contracts that Verus
proves. A handful of small wrappers around the standard library
(`char::from_u32`, `String::push`, `str::to_lowercase`,
`char::is_alphabetic`, `Debug` formatting of a string, `Path::join`) are
marked `external_body`: their contracts are taken as given, not proved.

## Layout

- `src/` — the verified library
  - `hangul/` — conjoining-jamo types, compound vowel/final tables, the
    composition state machine (sequential and order-independent
    "모아치기" input) and the output forms (conjoining, NFC syllables,
    compatibility jamo).
  - `layout/` — physical key codes, the bundled layouts (두벌식,
    세벌식 390, 세벌식 최종, QWERTY, Dvorak) and user-defined layouts.
  - `abbr/` — abbreviations (autocomplete): triggers, the matching
    engine, the bundled starter dictionary and user dictionary entries.
  - `session.rs` — one editor window's input session: key handling,
    suggestions, layout and settings changes.
  - `settings.rs` — the persisted preferences and their migration.
  - `ngram.rs` — learning phrase abbreviations from text and writing
    them as a dictionary file.
  - `files.rs`, `menu.rs`, `timestamp.rs` — the editor's file-tree
    listing and naming rules, menu routing, and UTC timestamps.
  - `demo.rs` — the terminal demo's script mode and key handling.
  - `text.rs` — small string helpers shared by the modules.
- `tests/` — executable tests of the library.
- `app/` — the terminal demo binary and the host-side plumbing that
  Verus does not see: reading and writing TOML files, walking
  directories, key timing, the terminal UI.

## Contracts

Each data type has a mathematical view (`@`); public functions state
their result over those views and over spec functions that say directly
what a value is. Properties that relate several functions (round trips,
orderings, what an operation keeps) are stated as `pub proof fn lemma_*`
items next to the functions they are about.
