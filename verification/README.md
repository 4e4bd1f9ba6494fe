# quantumtv

The verified core of QuantumTV, a local-first video aggregation player, and
the thin application layer around it.

## Layout

- `src/` — the library, written in Verus. Every function carries a
  `requires`/`ensures` contract that Verus proves. The public `lemma_*`
  proof functions state properties that span several functions (for
  example: merged search results have no duplicate source entries and are
  ranked; a play-record key splits back into its source and id; retries
  stop after the policy's attempts).
  - `text`, `numtext`, `sorting` — string operations, decimal text and
    stable sorting, each with an exact specification.
  - `douban`, `douban_fetch`, `douban_page` — the Douban browsing pages:
    request normalisation, listing addresses and query strings, paging,
    retries and page state.
  - `subject`, `subject_page` — Douban subject pages and their short
    comments, read out of the HTML by CSS selectors.
  - `video`, `remote` — search across sources, ranking and deduplication,
    episode lists, source selection, remote-URL checks, playback
    bookkeeping, fetch plans and retry policies.
  - `home`, `bangumi`, `recommendation` — home page, the broadcast calendar,
    favourites, continue-watching and recommendation rules.
  - `page_cache`, `image_cache`, `picture` — cache expiry and eviction
    rules, and the re-encoding of cached cover images.
  - `player_open` — the decisions of opening the player on a programme
    (fallback searches, skipped sources, probes), as a step machine.
  - `clock`, `shell` — the weekday of the wall clock; the hide shortcut.
- `tests/` — tests of the library's public functions.
- `app/` — ordinary Rust around the library: HTTP requests, SQLite and
  in-memory caches, JSON (serde copies of the library's types), the loops
  that drive the library's step machines, and the parts that compute with
  floating-point scores and times. Source health, source tests, skip
  detection and the playlist ad filter come from the caller.

Calls into outside crates (regex, url, urlencoding, serde_json, scraper,
image) and a few std functions that vstd does not specify are made from
small wrappers marked `#[verifier::external_body]`; each states in its
doc comment what its contract assumes of the call.
