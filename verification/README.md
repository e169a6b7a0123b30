# ytmtui

A keyboard-first terminal client for a music service: search, queue, synced
lyrics, a Home screen of recommendations, themes and a spectrum visualizer.

The decisions of the program are a library with machine-checked contracts;
the program around it performs the work that leaves the process.

## Layout

- `src/` — the verified library.
  - `app/` — the application state (`App`) and every decision taken on it:
    the playback queue and shuffle cycles, navigation, the Home grid,
    search results, authentication, preferences, animation timing and the
    handling of background results (`App::apply`). Methods that need outside
    work return `Effect`s; the outcome comes back as a `Msg`.
  - `event.rs` — which action a key press asks for, and running it.
  - `home.rs` — the Home screen's projection into shelves of cards and its
    spatial navigation.
  - `lyrics.rs`, `visualizer.rs`, `player.rs`, `artwork.rs` — the integer
    logic of synced lyrics, the sample tap, the audio cache and cover modes.
  - `ui/` — layout breakpoints, reveal stages, text widths and cuts, the
    scrolling title, the playback track line, theme colors and the
    presentation state.
  - `doctor.rs` — the environment report and the redaction of its details.
- `app/` — the program: terminal, drawing, audio device, provider calls,
  files on disk and the desktop's media controls.
- `tests/` — tests of the library.

The contracts state what each function returns or changes, and the proof functions (`lemma_*`) state the laws that relate
several calls.
