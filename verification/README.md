# honeybee

The manager of the Honeybee honeypot framework, with its logic verified by
Verus.

- `src/` is the verified library: the message protocol (`message`), the
  configuration (`config`), the registry of nodes and the commands it
  answers (`node_manager`), backends, the framing of their JSON messages and
  the answers to their commands (`backend_manager`), the decisions of the
  WebSocket gateway (`gateway`) and proxy (`proxy`), of the command-line
  client (`cli`) and of the logger (`logging`), and the text functions they
  share (`text`). Each public function states what it returns in its
  contract; the laws that span several calls are public proof functions
  named `law_*`.
- `app/` is the program around it: the TCP and WebSocket servers, the
  interactive client, the logger and the JSON and TOML forms of the
  library's types. It hands the library plain values and carries out what
  the library decides.
- `tests/` runs the library on concrete values.

## Choices

Some settings that the servers need have no key in `bee_config.toml`:

- backends connect on the port after `server.port`, and the WebSocket
  gateway listens two ports after it (`Config::backend_address`,
  `Config::gateway_address`); the gateway always runs;
- the log is also kept in MongoDB when `database.url` is a `mongodb://` or
  `mongodb+srv://` URL (`Config::logs_to_mongodb`), in fixed databases and
  collections;
- `logging.file` names a file the log is appended to, beside the per-run
  files of `logging.folder`.

A node that connects is `Running`; a status update it sends about itself
sets its status, and its other messages leave it as it is.
