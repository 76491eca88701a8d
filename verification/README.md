# grokrs

The core of `grokrs`, a command-line agent for Grok models, written in Verus.
Every function in `src/` carries a contract that Verus proves, except the
few small wrappers around std and outside crates (`serde_json`, `url`),
whose contracts state what their documentation promises.

What is proved includes:

- the policy engine fails closed (`policy`), and the approval mode can only
  turn an `Ask` into `Allow` or `Deny`, never overturn a decision;
- a tool call runs only when the tool is registered, the session's trust
  rank reaches it, and every effect it classifies into is allowed
  (`executor`);
- a profile document laid over the base configuration holds the overlay's
  values wherever the overlay has any, and the base's elsewhere (`layers`);
- session state counters and conversation token totals stay consistent
  (`session`, `repl`);
- day counts map to the Gregorian calendar, one day after another
  (`calendar`);
- the text every command prints: tables, reports, transcripts, doctor lines.

Layout:

- `src/` — the verified library, one module per concern;
- `tests/` — tests of the library on concrete values;
- `app/` — the `grokrs` program: argument parsing, configuration files,
  environment and printing around the library.
