# quorp_tui

The logic of the Quorp terminal interface as a Verus library: every function in `src/`
carries a contract that Verus proves, but for the few small wrappers around outside
crates (syntect, image, serde_json, font8x8), whose contracts are trusted; and the laws
of the interface (what a saved thread reads back as, how focus moves between panes,
that a run always ends with the runtime idle, that an event log read in steps gives the
records of reading it at once, ...) are proof functions beside the code they speak of.

- `src/` — the verified library: the assistant-reply grammar and its layout, saved
  actions and threads, chat sessions, their composer and feed, pane focus and overlays,
  where a key or a mouse event goes in the workbench, the agent runtime's decisions and
  rail events, the start-up screen and its mascot art, and the pixel work of screenshots.
- `tests/` — tests of the library on concrete values.
- `app/` — what surrounds the library: the workbench's event loop step over terminal key,
  mouse, resize and paste events, saved threads as JSON, the Docker-backed run loop, and
  the floating-point drawing and image comparison.
