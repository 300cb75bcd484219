# colang

The rules of a language-learning service, written in Verus and proved
against their contracts.

- `src/` is the verified library: text and number handling, configuration,
  token claims and decoding, password hashing, the learning API's request rules, wallet
  coupon reminders, OAuth endpoints, error replies, the command-line
  options of the word and dictionary tools, word-list selection, vocabulary
  lists, desktop sign-in codes, the
  dictionary import normalisers and row builders, and row-level access
  control (`permission/`). Calls into outside crates (hashing, encoding,
  random numbers, UUID, JSON and token parsing, the clock) go through small
  trusted wrappers whose doc comments say what is assumed of them.
- `tests/` runs the library on concrete values.
- `app/` is the program around it: the HTTP servers, the database, the
  speech and chat services, and the command-line tools, which read and
  write and hand plain values to the library.
