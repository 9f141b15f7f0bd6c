# cloudapps

A command-line client for the Microsoft Defender for Cloud Apps REST API,
with its logic verified by Verus.

- `src/` is the verified library: the API enums, request filters, the
  credential resolution order, the `credentials.toml` scanner, the
  `credentials` command as a step function (including the keychain
  rollback of a failed migration), paging, table rendering, the `doctor`
  report lines and the agent's request screening.
- `app/` is the program around it: argument parsing, HTTP, terminal and
  file I/O, and the conversions between serde types and the library's
  types.
- `tests/` exercises the library on concrete values.
