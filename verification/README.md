# cabinet

A server that keeps uploaded files for a while and hands them out again. Every file
gets an address and a token; whoever holds the token may delete the file. Data is kept
once for all files that share it, under the text of its hash.

- `src/` is the library, verified with Verus: the database, the files, uploads and
  their lifespans, and the answers to requests. `src/laws.rs` and `src/history.rs`
  state what holds of the library as a whole, `src/outside.rs` holds the calls into
  other crates and what is relied on of each.
- `app/` is the server around it: HTTP, TLS, the configuration and the disk.
- `tests/` runs the library.
