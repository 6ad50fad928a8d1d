# crm

A verified core for a small CRM built from four services: user statistics,
content metadata, notifications and the CRM front service.

- `src/` is the library, checked by Verus:
  - `time`: instants in UTC as `chrono` represents them, and the calls into
    `chrono` that read the clock, shift by whole days and format;
  - `text`: decimal numbers, number lists and joined clauses;
  - `query`: the user-statistics query, its builder, the SQL it becomes and
    the answer to a statement;
  - `metadata`: the metadata service, its configuration and made-up content;
  - `send`: notification messages, their conversions, the e-mail about a
    list of contents and the queueing answer;
  - `crm`: the user endpoints and the welcome flow of the front service: its
    query, its e-mails and its answer;
  - `fakes`: random values and fake data from `rand`, `fake` and `uuid`.
- `app/` is the program around it: configuration files, Postgres, channels
  and streams.
- `tests/` run the library with the real outside crates.
