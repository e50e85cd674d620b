# letrecovery

The decision logic of a Windows reinstallation and recovery tool as a verified
Verus library.

- `src/` holds the library. Each public function has a contract over
  mathematical models (`Seq`, `Map`, spec functions); the multi-step flows
  (direct installation, installation through Windows PE, boot repair, finding
  the EFI system partition, setting up the PE boot entry, handing an enlargement
  of C: over to PE) are state machines, and for each a proof function shows that
  every step moves forward, so that the flow always ends.
- `tests/` runs the library on concrete values.
- `app/` is a small command-line program around the library: it reads and writes
  files and runs the system tools (`diskpart`, `bcdedit`, `bcdboot`, `shutdown`),
  and lets the library decide.

Only standard-library calls are trusted: `str::to_lowercase`,
`str::to_uppercase`, `String::push`, `String::from_utf8_lossy` and
`String::from_utf16`, each behind a wrapper whose contract says what it claims.
