# trakkin_providers

The logic of two providers for a media tracking host, written in Verus:

- for **Plex**: how the records of a Plex Media Server become provider items,
  catalog relations, portable references and watch-state observations; the
  connection settings and PIN sign-in; which requests read a library page by
  page, look references up and write watch state, and how their answers are
  reported;
- for the **fixture** provider: scripted scenarios that answer every request
  deterministically, including declared faults, with the targeted state they
  keep.

The library does not serve the host's protocol itself; the program in `app/`
is a command-line client that runs the Plex reads and a watch-state write
against a server, and the fixture reads, printing what they answer.

## Layout

- `src/` — the verified library.
  - `sdk.rs`: the host protocol's messages as plain values, with views.
  - `text.rs`, `hashing.rs`: text and digest helpers over `Seq` models.
  - `model.rs`, `mapping.rs`, `client.rs`: Plex records, how they map to
    provider messages, and where Plex requests go.
  - `adapter.rs`, `connection.rs`, `authentication.rs`, `assets.rs`,
    `paging.rs`: the Plex adapter's decisions — connection settings, failures,
    targeted reads and writes, lookups, PIN sign-in, artwork, paged reads.
  - `scenarios.rs`, `fixture.rs`, `assoc.rs`: the fixture scenarios, with the
    targeted state they keep, and the fixture provider's answers.
  - `service.rs`: the registry of running operations.
- `tests/` — tests of the library on concrete values.
- `app/` — the command-line program: HTTP exchanges with Plex, JSON decoding,
  the read streams and the watch-state write, all driven by the library's
  decisions.

Outside crates are called from `src/` through small trusted wrappers: `url`
(URL parsing and form encoding), `sha2` (digests), `uuid` (diagnostic and
attempt identifiers) and `reqwest`'s status codes (reason phrases).
