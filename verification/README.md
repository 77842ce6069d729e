# browser_rpass

The verified core of a password-manager browser extension and its native host. The
extension's service worker keeps a session of password stores and forwards requests from
its popup and content scripts to a native host that serves the stores; the popup and the
content scripts keep their own state.

`src/` is the library, written in Verus; every public function has a contract that Verus
checks:

- `request`, `response`, `types`, `json`: the messages and records the components
  exchange, and their JSON content (`json_text` gives the exact text of a value).
- `session`: the service worker's session and the reducer of its actions, with the event
  each action sends and the ports it goes to; `ports` holds which ports are connected,
  which listen to which store, and which requests wait for the native host.
- `router`: what the service worker does with a request from a port.
- `native_message`: the session action a response of the native host calls for.
- `native_host`: message framing, handler choice, failure answers and the init report.
- `commands`: what the popup sends when the user acts, and the change it makes to its
  own state before the answer comes.
- `page_inputs`: which input fields of a page the content script fills.
- `popup`, `content`, `widgets`, `ranking`: the popup's and content script's state,
  reducers and reactions to events, the options of their forms, and the order in which
  accounts are offered (fuzzy scores come from `sublime_fuzzy`).
- `util`, `text`: acknowledgements, domains of addresses (from `url`), text searches.

`app/` is the unverified rim: JSON text and serde records, standard input and output of
the native host, and the glue that feeds the library's state machines.

`tests/` runs the library on concrete values.
