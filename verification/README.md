# termix_local

The logic of a local SSH workbench: a small HTTP server that keeps users, hosts and credentials
in a database, a file manager over SFTP, and terminals over WebSockets.

`src/` is the library. Every function in it states in its contract what it returns, and Verus
proves that it does. It performs no I/O: a request becomes a statement for the database, an
action on a remote host or a step of a state machine, and what came back becomes an answer.

| module | what it holds |
| --- | --- |
| `text`, `clock` | text helpers, timestamps |
| `json`, `json_text` | JSON values as trees, reading and printing them |
| `base64_text` | bytes as base64 |
| `error` | refusals and answers |
| `store`, `tables` | statements for the database, and what they mean |
| `accounts`, `sessions` | users, logins, tokens |
| `records`, `documents` | how stored documents are completed, updated and reached |
| `hosts`, `credentials`, `keys` | hosts, credentials, SSH keys |
| `ssh` | the steps of a connection |
| `remote_path`, `files`, `file_sessions` | the file manager |
| `terminal`, `terminal_loop`, `terminal_socket` | terminals |
| `replies`, `desktop` | fixed answers, the desktop shell |

What the library takes on trust of `serde_json`, `bcrypt`, `base64`, `uuid` and the standard
library stands in the contracts of a few small functions, each with a comment that says so.

`tests/` runs the library on concrete values. `app/` is ordinary Rust around it: the database,
the sockets, the SSH connections and the shell.
