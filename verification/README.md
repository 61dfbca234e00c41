# copytej

The verified core of CopyTej, a file transfer utility. The library (`src/`)
states and proves what the transfer engine decides; the program (`app/`) does
the file, database, window and pipe I/O around it.

- `engine`: job and file records, adaptive chunk sizes, per-job pause and
  cancel flags, the shared token-bucket rate limiter (exact integer
  arithmetic in nano-bytes and nanoseconds; every request is let through
  once its bytes have come in), `CopyError`, and `CopySession`, the
  bookkeeping of a chunked copy that hashes the bytes it writes.
- `engine::hasher`: BLAKE3, XXH3, CRC-32, MD5 and SHA-256 checksums, whole or
  incremental, rendered as lowercase hexadecimal.
- `engine::conflict`: name conflicts, the questions asked and the answers
  given to them, job-wide answers, the overwrite-older and
  skip-same-size-and-date rules, rename candidates.
- `engine::queue`: which job runs next, how a job ends, settings, retries,
  verification of a copied file, the free-space check, building and
  finishing a job.
- `engine::file_run`: the transfer of one file of a running job, as a machine
  that takes what the file system and the user answered and says what to do
  next.
- `store::db`: how records map to database rows.
- `cli`, `ipc::pipe_server`: the command line and the single-instance hand-over.
- `ids`: job identifiers (time-ordered version-7 UUIDs) and conflict
  identifiers (version-4 UUIDs) built from random bits, and their text.
- `shell_menu`: the registry keys of the Explorer context menu.
- `text`, `keyed`: decimal and hexadecimal text, parsing, a string-keyed map.
