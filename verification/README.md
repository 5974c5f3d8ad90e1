# radikal_grants

Bookkeeping for a small grant fund: applicants submit grant applications
through a web form and confirm their e-mail address, administrators log in
and move each grant through its stages (checking, board, accepted, paid,
archived), and archiving drops the applicant's personal data, keeping only
hashed keys.

- `src/` is the verified library (Verus): form parsing and validation, the
  grant state machine and its history, archiving, the quota check, related
  grants, the mail configuration, log-in, and random titles. `src/laws.rs`
  states the properties that span several functions.
  `src/outside.rs` holds the few trusted wrappers around outside crates
  (BLAKE2b, random choice, random tokens, e-mail validation, the clock,
  number parsing).
- `tests/` runs the library on concrete values.
- `app/` is the web server around it (Rocket, sled, lettre): routes,
  storage, e-mail sending, and the stored copies of the library's types.
