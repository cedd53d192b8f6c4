# zed_lib

The registry data plane of `zed-pkg`, split in two:

- `src/` is a Verus-verified library. It holds the data plane's decisions:
  input validation (package names, checksums, tokens, enumerated values,
  bounded text), role checks, the private-to-public visibility policy and its
  one-way transition, download access, invitation acceptance checks, search
  parameters, connection-role URLs, the refusal texts, and the SQL texts the
  data plane sends. Each write operation (upload, download, package creation,
  license, publication, invitation acceptance) is a verified step function in
  `src/registry/flows.rs`: from its state and the answer to its last action it
  gives the next action, so the order of checks, reads and writes, and the
  contents of the rows it writes (apart from ids and timestamps drawn at run
  time), are stated and proved there.
- `app/` is the SeaORM data plane: connections, entities, transactions and
  queries. It runs each operation's step function, performing the action the
  step asks for and handing back the answer. The clock, the identifiers
  Postgres draws, and the floating-point parts (embedding vectors, an age in
  seconds) stay here.

`tests/` runs the library on concrete values.
