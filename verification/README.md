# mercury_reader

The core of a desktop RSS/Atom reader, verified with Verus.

- `src/` is the library, checked by Verus:
  - `feed_parser.rs` turns the bytes of a feed into a `Feed` and its `Article`s
    (parsing through `feed-rs`, addresses through `url`), and derives favicon
    addresses and article content;
  - `feed_bytes.rs` decides which feed documents may be handed to `feed-rs`:
    that parser panics on some play times (`itunes:duration` texts, Media
    RSS `start`/`end`/`time` values), and `parse_feed` requires documents
    that this screen clears; it follows the markup as the parser's XML
    reader delimits it and only looks into documents that bind the iTunes
    or Media RSS namespace;
  - `opml.rs` reads the feed list of an OPML document (XML through `roxmltree`)
    and drops repeated feed addresses;
  - `article.rs` recognises anti-bot pages and holds the paging, search and
    lookup decisions of the article commands;
  - `sync.rs` holds the bookkeeping of syncs and imports: bounded concurrent
    fetching, counters, progress reports and the records written;
  - `text.rs` has the character-level helpers (trimming, substring search);
  - `laws.rs` states properties that span several functions.
- `app/` is the Tauri shell: the commands, the SQLite store (via `sqlx`) and
  HTTP fetching (via `reqwest`), calling the library for every decision.
- `tests/` exercises the library on concrete inputs.
