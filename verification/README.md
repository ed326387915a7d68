# pixiv_exporter

A Prometheus exporter for Pixiv illustration metrics, whose core is verified
with Verus.

- `src/` is the verified library:
  - `config`: the configuration values, their defaults, and how a value that
    refers to an environment variable is resolved;
  - `decimal`: decimal rendering of integers;
  - `export`: the gauge descriptions and the samples one illustration yields;
  - `scraper`: the scraping loop as a state machine, with its invariants and
    laws proved over its mathematical model;
  - `upkeep`: when the recorder upkeep reports progress.
- `app/` is the binary: command line, configuration file loading (serde),
  the Pixiv API client, the metrics recorder and HTTP server, logging, and
  the interval settings, which compute in floating point.
- `tests/` runs the library on concrete values.
