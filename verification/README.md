# lake

Minimal file sharing on Cloudflare R2, with a verified core.

Upload a file with one `curl` command and get a link back. Links expire after 7
days or 20 downloads, and uploads stop before the free-tier limits are reached.

- `src/` is the library, verified with Verus:
  - `tables.rs`: the tables of files and of monthly operation counts, as
    mathematical values;
  - `rules.rs`: which requests are refused, and what the others make of the tables;
  - `laws.rs`: what holds of the records as a whole;
  - `course.rs`: what holds of whole requests, and of any course of requests;
  - `sql.rs`: the SQL statements, and what is trusted of SQLite about them;
  - `db.rs`: the records, each operation one transaction;
  - `service.rs`: what is decided between one step of communication and the next;
  - `headers.rs`, `text.rs`, `config.rs`, `clock.rs`, `error.rs`, `share.rs`:
    request and response headers, text, settings, time, errors and files.
- `app/` is the server around it: HTTP, the object store and the environment.
- `tests/` runs the library against a SQLite database in memory.
