# p2a

The verified core of the p2a analytics command line and of its terminal chat
client, written in Verus.

## Layout

- `src/` — the library, every function with a contract proved by Verus.
  - `munge`, `data`, `discrete`, `panel`, `spatial`, `causal`, `regression`,
    `stats`, `timeseries`, `survival`, `ml`, `viz`: the command groups. Each
    checks a command against the datasets of the session, reads its keyword
    options and comma-separated lists, and names what the command produces.
  - `cli`: the global options and the command groups.
  - `output`: output formats, messages, input validation and column
    suggestions by edit distance (`edit_distance`).
  - `script`, `shell`: replay scripts for recorded sessions and the quoting
    of their command lines; the laws there show that the shell reads each
    replayed line back as the recorded words, and that every line of a
    script is a comment, a blank or fixed line, or a replay of quoted words,
    so no text of a session runs as a command.
  - `chat`: the chat client's decisions: prompt scripts and the run of
    their requests, the server-sent event stream, argument summaries,
    transcripts, history.
  - `common`, `text`: shared messages and string routines.
- `tests/` — tests on concrete values.
- `app/` — the chat program: terminal, files and network around the library,
  plus output helpers that print or work on floating-point results.

Floating-point option values travel through the library as `common::Real`,
their IEEE-754 bits, and are never computed with there.
