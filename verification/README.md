# rustysound

The playback logic of the RustySound music player. Every
function in `src/` carries a contract that Verus proves, except three small
trusted wrappers whose contracts Verus takes on trust: `text::push_char`
(`String::push`) and the two calls into `rand` and `uuid` in `random`.

- `model` — songs, their collection provenance, servers, repeat modes.
- `queue` — manual normalisation, finding a queued instance, selecting,
  moving and removing queue entries.
- `collection` — tagging collection groups and switching a group between
  shuffled and original order.
- `extension`, `discovery`, `library` — growing a queue without repeats,
  the fetch plans for related songs, seeded queues and shuffle queues,
  installing a generated queue, favourites and ratings.
- `transport`, `remote`, `playback`, `stream` — what the buttons, remote
  commands and the end of a track do; the remote command queue and the
  background playback plan; audio sources, now-playing metadata and error
  messages.
- `lyrics`, `details`, `navigation`, `shortcuts`, `text` — lyrics selection
  and formatting, the lyric-card line selection and themes, the details
  overlay with its lyrics retries and cache, route changes, keyboard
  shortcuts and string helpers.
- `laws` — properties that span several calls (what a move keeps, what the
  remote queue never holds, how the state machines answer event sequences).
- `random` — the two calls into `rand` and `uuid`.

`app/` holds what Verus does not see: JSON commands for the native players,
process-wide state, timers, and the async loops that make the fetches the
library plans. `tests/` runs the library on concrete values.
