# manga-tui

The reader page of a terminal manga reader, verified with Verus.

- `src/reader.rs` is the page: what it holds, how it answers actions, keys, ticks and background
  news, and what it asks to be drawn, fetched and searched.
- `src/page.rs`, `src/chapter.rs` and `src/events.rs` hold the types that it works with.
- `src/text.rs` and `src/agent.rs` write numbers and the program's name out.
- `src/list_state.rs`, `src/area.rs` and `src/url.rs` are the boundary to `tui_widget_list`,
  `ratatui` and `reqwest`: what is trusted of them is stated there.
- `src/laws.rs` states what holds of the page as a whole.
- `app/` is the program around the library: the terminal, the server, the channels and the
  background tasks, and the drawing.
