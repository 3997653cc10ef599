# route_optimizer

The core of a delivery driver's route application, verified with Verus.

- `src/` is the library. `models/` holds the delivery session, the package
  cards, the offline changes, the dashboard records and a plain model of JSON
  documents; `services/` converts sessions into cards, keeps the package cache
  and its checksum, reads the package endpoint's answers, and decides each
  step of a synchronisation; `views/` and `viewmodels/` hold the decisions of
  the screens (grouping and ordering of stops, manual reordering, progress
  figures, form checks, the dashboard's CSV export); `state/` holds the
  application state and its transitions; `utils/` the translation tables and
  text helpers.
- `tests/` exercises the library on concrete values.
- `app/` is the browser program around it: HTTP requests, local storage,
  network events, and the JSON forms of the library's types.
