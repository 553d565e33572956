# harmonium

The core of a terminal music player, written in Verus: album artwork, the queue
and playback control. The functions under `src/` have contracts that the verifier
proves, except for the few that call another crate or a function of the standard
library: their contracts are stated, not proved.

- `src/artwork/` finds, decodes, sizes and presents covers.
  - `loader` and `remote` look for a cover in the track's tags, beside the track
    and on the network; `load` runs a load from the first look to the prepared
    protocols.
  - `protocol` and `state` keep the cover on display while a worker encodes it,
    so that a cover that was replaced never comes back.
  - `backend`, `layer`, `ueberzug` and `ueberzugpp` choose a renderer and talk to
    external processes that draw images.
  - `images`, `terminal` and `tags` hold the stated contracts of the `image`,
    `ratatui-image` and `lofty` functions that are called.
- `src/player/` holds the queue, playback control, lyrics and what the user sees.
- `src/text`, `words`, `path`, `digest`, `json`, `time` and `geometry` are the plain
  values that everything else is stated over. Stated contracts stand here too:
  `json` has those of `serde_json`, `digest` that of `sha2`, and `text` those of
  functions on strings and characters of the standard library.
- `app/` is the outside world: files, processes, threads and the network. It does
  what the library asks for and reports how it went.

The library never performs input or output. A function that needs something from
outside returns what it needs; the caller does it and comes back with the answer.
