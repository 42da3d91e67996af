# mmo

The protocol and bookkeeping core of a small real-time multiplayer game server
and its Godot clients, written in Verus with its behaviour stated in contracts
and proved.

`src/` is the verified library:

- `decimal`, `text`: integers in decimal text, splitting, joining and trimming
  text, as the standard library does them.
- `wire`: the text packet `type|subtype|payload` that clients and servers
  exchange over UDP; decoding what was encoded gives the packet back.
- `net`, `frame`, `codec`: the binary packet with its request id, its length
  framing on a stream, and the `bitcode` encoding of plain values.
- `protocol`, `legacy`: which request a packet carries and the packet that
  answers it, for the text protocol and for the first JSON protocol.
- `command`, `session`, `sessions`: commands between client sessions and the
  game, what a session does with each packet and how a login goes, and the
  table of sessions per peer.
- `store`, `record`, `ids`, `entities`: keys and id counters in the key-value
  store, the player record layout, id counters, and which physics entities to drop.

`app/` is the server program and the Godot extension nodes: sockets, threads,
channels, Redis, rapier physics and everything with floating point.
