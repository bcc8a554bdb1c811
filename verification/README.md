# jira_cli

A command line for Jira whose rules are verified with Verus: which requests are sent, how answers
are read, what is printed, and what is written to the config file.

- `src/` is the library. Every function has a contract that Verus proves. Work that waits for
  Jira, a terminal or a keychain is written as steps: a function says what is needed next, and
  takes the answer.
  - `text`, `json`, `json_text`, `url`: texts, JSON trees, JSON as text, URLs.
  - `api`: errors, Jira's types, the client's requests, paging, sprints, epics, and the
    preparation of creates and updates from metadata.
  - `commands`: queries, tables and JSON for issues, sprints and boards, the order of a creation
    and of a download, previews, create screens, transitions, bulk runs and the doctor's checklist.
  - `config`, `credentials`: profiles, the config file, the guided setup, logins without prompts,
    the search for what a site runs, the keychain.
  - `cli`, `schema`, `schema_args`, `schema_fields`: arguments, the read-only guard, completions
    and the schema of the command line.
  - `output`: exit codes, the error envelope and output modes.
- `app/` is the program around it: arguments, HTTP, files, the keychain and the terminal.
- `tests/` runs the library on concrete values.

What an outside crate computes stands behind small functions marked
`#[verifier::external_body]`, each with a comment on what is believed of it.
