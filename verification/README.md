# prune-backup

Backup rotation: scan a directory, keep the files that the retention policies select
(keep-last, hourly, daily, weekly, monthly, yearly) and move the rest to the trash.

- `src/` is the library, verified with Verus: the calendar values the policies read, the
  configuration and how command-line values, `.retention` values and defaults combine, the
  selection of the files to keep and the reasons for it, the listing order, the trash command,
  and the plan of a rotation. `src/laws.rs` states properties of the policies that hold for
  every listing, configuration and moment.
- `app/` is the command-line program: argument parsing, reading the `.retention` TOML file,
  the directory listing and file times, running the trash command or the system trash, and
  printing.
- `tests/` runs the library on concrete values.

Each period policy keeps, for every period inside its window that holds a file, the oldest
file of that period; the policies are applied independently, so a file may be kept for
several reasons.

Collections. The periods a policy has already covered are held in a `HashSet<i128>`: each
period key (a tuple of integers) is encoded as one integer, because vstd gives a hash set a
model only for integer and similar keys, not for tuples. The reasons of each kept file are
held in `KeepReasons`, one small set of reasons per position, in place of a
`HashMap<usize, HashSet<RetentionReason>>`: the inner sets would be keyed by an enum with
derived `Hash` and `Eq`, for which nothing about the hash set's contents can be proved.
