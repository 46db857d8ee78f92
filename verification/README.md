# agent-pair

A label-based TCP tunnel over WebSocket and yamux. A broker runs on a public server. A *bind* agent
registers a label for a local service; *forward* agents lead connections to a local port to the
service behind a label.

`src/` is the verified library: what a frame is, which label leads to which agent, and what the
broker and the agents do next on every event. `app/` is the network around it: sockets, WebSockets,
yamux sessions and the command line.

| Module | Holds |
|--------|-------|
| `wire` | the bytes of numbers and texts, as postcard writes them |
| `protocol` | control frames and labels |
| `labels` | the table from labels to values |
| `session` | the numbers and the life of sessions at the broker |
| `dial` | a stream that this side opens |
| `broker` | the broker's decisions |
| `agent` | the agent's decisions, `bind` and `forward` |
| `transport` | addresses and WebSocket messages |
| `cli` | arguments, and keeping the connection |
| `text` | pieces of messages |
| `error` | the error type |
| `laws` | what holds of the tunnel as a whole |

## Rules

| Rule | Behaviour |
|------|-----------|
| Bind first | A stream for a label that nobody has registered is dropped |
| One bind per label per broker | A duplicate `bind` returns an error, from the same agent or from another |
| N forwards per label | Each connection gets a stream of its own |
| Bind ends or disconnects | Its labels are forgotten, and can be registered anew |
| Labels are scoped per broker | The same label on different brokers is independent |

Frames are a length of two bytes, most significant first, and a payload of at most 4096 bytes.
Labels are not empty, at most 4096 bytes long and on one line; those of more than 4093 bytes do not
fit in a frame that a reader accepts.

A registration lasts as long as one of the streams that it came on is open at the agent. Where
another agent serves the label already, the broker sends back one byte, 1, on the stream of the
registration, and the `bind` returns its error; nothing else is sent back there.

## Command line

```
agentd                                  # the broker, on 127.0.0.1:7799
agentd --bind 8080:web                  # serve the label "web" with local port 8080
agentd --forward 9090:web               # lead local port 9090 to the label "web"
agentd --bind 3000:api --forward 9090:web
```

`--server` gives the address of the broker. A lost connection is made again after 3 seconds.
