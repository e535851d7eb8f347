# eren

A command-line client that searches the allanime catalogue for cartoons and
anime, resolves the stream of each picked episode, and plays it with `mpv`,
downloads it with `aria2c`/`hls`/`ffmpeg`, or prints its links.

## Layout

- `src/` — the library, verified with Verus:
  - `text.rs`: character-level string operations (search, split, replace,
    trim, lines, join, decimal numbers) with exact specifications.
  - `json.rs`: the JSON model the catalogue's answers are read through.
  - `codec.rs`: hexadecimal decoding (`hex`) and form URL encoding (`url`).
  - `pattern.rs`: regular expressions (`regex`).
  - `providers/allanime.rs`: query links, source decryption, reading search
    results and episode answers, picking a show, episode titles.
  - `providers/streaming.rs`: the provider-by-provider search for a stream.
  - `providers/episodes.rs`: moving through a show's episodes.
  - `helpers/`: provider names, the retry rule for JSON fetches, player and
    download commands, menu helpers.
  - `cli.rs`: reading the command-line values.
- `app/` — the program: argument parsing, HTTP, menus, processes.
- `tests/` — tests of the library.
