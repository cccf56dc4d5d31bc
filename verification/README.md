# atb

A tool box for backend services, written in Verus: the logic is a verified library
under `src/`, and the runtime glue (HTTP, websockets, async tasks, the OpenAI client,
the command line, logging) is ordinary Rust under `app/`.

## Library modules (`src/`)

- `take`: a value that can be taken out once.
- `text`, `codec`: character and byte helpers, and the outside codecs (base64,
  SHA-256, entropy) behind small trusted wrappers.
- `jwt`: token structure, signature-checked decoding of the claims payload, claims and
  their builder, expiry and fingerprint checks.
- `auth`: reading a bearer token, splitting a token into cookies and joining it back.
- `pagination`, `relay`, `connection`: relay-style pages: argument checks, opaque
  cursors, connection query plans and assembling a page from fetched rows.
- `backoff`: exponential backoff and the retry and reconnect state machines.
- `serde_utils`: the values behind serde field adapters (`i64` as decimal text, empty
  strings as absent, bytes as base64).
- `cli`: the executing environment and its names.
- `tasks`: shutdown signalling for long-running tasks.
- `websockets`: the heartbeat of an event-streaming websocket.
- `activities`, `activity`: workflow activity outcomes and activity kinds.
- `openai`, `agent`: the data model of the responses API and the conversation state
  and decisions of a tool-using chat agent.
- `safe_data`: application state handed to request handlers.

Contracts are stated over spec functions and views; laws that relate several calls
are public proof functions named `law_*`.
