# sunder

Threshold signing as a service: each signing node holds one share of a
key, and an aggregator asks the nodes for partial signatures, keeps the
valid shares of the first `threshold` nodes, in node order, that sent one,
and combines them into one signature. A node that is down, or sends a share
that does not decode, is passed over.

`src/` is the verified library:

- `hex_codec`, `text`: the hex transport encoding, decimal rendering, joining.
- `key_table`: values keyed by name in insertion order, no name twice.
- `collector`: the collection of partial signatures, and what it guarantees.
- `aggregator`, `node`: the signing rules and HTTP answers of each role.
- `client`: the requests a client sends and how it reads the answers.
- `audit`, `keystore`, `error`, `types`, `http`, `signing`: shared types.

`app/` is the program around it: HTTP servers and clients, files, JSON,
and the calls into the threshold signature scheme.
