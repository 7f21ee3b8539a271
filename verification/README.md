# sys_shred

A secure file-erasure tool whose decision-making core is verified with Verus.

- `src/` — the verified library:
  - `cli/args.rs`: erasure methods, audit formats, the command-line options.
  - `engine/overwrite.rs`: the pass plan of each method (zero, random, DoD, Gutmann with
    its repeating three-byte patterns), the chunking of a pass over a file, and the
    read-back check of every pass, random ones included (each random chunk is expanded
    from a per-pass seed, so it can be regenerated).
  - `engine/entropy.rs`: seeds from the operating system (failures become errors) and
    the seeded `StdRng` streams.
  - `engine/exclude.rs`: exclusion patterns compiled with `globset`.
  - `engine/mod.rs`: the `Shredder` policy — target checks, confirmation prompts,
    what happens to each entry, the steps that destroy a file and how their failures count.
  - `engine/order.rs`: which walked entries are shredded, and the deepest-first order in
    which directories are removed (a verified merge sort).
  - `engine/metadata.rs`: random replacement names and the rename retry rule.
  - `engine/report.rs`: audit events, session reports and their text rendering.
  - `text.rs`: decimal and hexadecimal rendering.
- `app/` — the command-line program: argument parsing, prompts, the file-system walk,
  the writes, renames and removals, parallel execution, progress display and report saving.
- `tests/` — tests of the library.
