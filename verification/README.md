# data_inject

Real-time market-data ingestion into SQLite.

- `src/` is the verified library: the record models (`models`), the bulk
  insert statements, error and success messages (`database`), the address
  of a stream (`endpoint`), decimal notation (`text`), the stream
  listener's decisions as a state machine (`ingest`), and the proofs that
  batching loses, duplicates and reorders no record and that no record
  waits without a running flush timer (`batching`).
- `app/` is the program around it: it opens the SQLite pool in WAL mode,
  connects to the websocket streams, decodes JSON frames, hands batches
  through a channel to a task that runs the statements while the stream
  keeps being read, runs the flush timer and the reconnect delay, and
  prints what the listener reports.
- `tests/` runs the library on concrete inputs.

A batch is written when it holds 50 records, or when its oldest record has
waited `FLUSH_TIMEOUT_SECS` (one second). The tables `Bitcoin_Data` and
`Solana_Data` must exist in the database beforehand.
