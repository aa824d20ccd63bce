# claude_cli

The decisions of a command-line coding assistant, verified with Verus.

- `src/` is the library: arguments and options, credentials, prompts, headless output, the
  interactive session, tools of connected servers. Where something happens outside, the library
  says what to do next and is told what came of it. JSON is built and printed with `serde_json`,
  session identifiers come from `uuid` and times from `chrono`.
- `tests/` runs the library on concrete values.
- `app/` is the program around it: reading, writing, querying and drawing. Its name is
  that of the package, without the suffix.
