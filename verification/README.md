# inkwell

The verified core of the Inkwell desktop signing flow, written in Verus.

`src/` is the library, every function of it proved against its contract:

| Module | What it holds |
| --- | --- |
| `protocol` | Version-one wire envelopes and stable error codes |
| `validation` | Request validation: identifiers, origins, text limits, bounded Base64, SHA-256 integrity, PDF header |
| `request_machine` | The single active request slot and its lifecycle, with laws on tokens, transitions and deadlines |
| `review_session` | The desktop's request session and PDF review commands |
| `desktop_link` | What each end of a host-to-desktop connection decides while a request is open |
| `native_framing` | Chrome native-messaging frames |
| `native_host` | Which terminal response answers each way a request can fail |
| `local_ipc` | HMAC-authenticated, sequenced frames and the key handshake, with laws on sealing and opening |
| `renderer_protocol` | Renderer messages, their limits and their frames |
| `renderer` | The renderer's document sequencing and engine error mapping |
| `deployment` | Native host name and extension identifier checks |
| `text`, `byte_io` | Byte and text helpers, and the trusted edge to `std::io` and `zeroize` |

Calls into `uuid`, `url`, `base64`, `sha2`, `hmac`, `getrandom` and `zeroize`
stand behind small trusted wrappers whose contracts say what the crates
document.

`app/` holds the process edges: standard streams, sockets and pipes, threads,
channels, JSON and postcard encodings, and the window shell. `tests/` exercises
the library from outside.
