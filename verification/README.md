# disktree_ui

The decision logic of the disktree browser window, verified with Verus.

disktree scans a drive, shows what fills it as a treemap and a sorted
listing, and deletes what the user picks. This crate holds what the window
decides; the window itself (`app/`) draws with egui, runs the scans and
deletes on worker threads, and hands the library plain values.

## Layout

- `src/model.rs`: node ids, metrics, sort keys, node kinds, delete modes and
  outcomes, colours.
- `src/listing.rs`: the order of the folder listing (a verified merge sort),
  with the laws that the listing is determined and that switching the
  direction reverses it.
- `src/state.rs`: the window state, its notices and the cached listing.
- `src/actions.rs`: what each user action does; deletes, refreshes and scans
  are refused while a job runs, and the scanned folder is never deleted.
- `src/tasks.rs`: scans and background jobs, and what their results do to the
  state.
- `src/input.rs`: shortcuts, arrow-key navigation, clicks on the map and the
  listing, the right-click menu and the path above the map.
- `src/widgets.rs`, `src/text.rs`: colours, titles, labels and text handling.
- `app/`: the egui window around the library.
- `tests/`: tests of the library on concrete values.
