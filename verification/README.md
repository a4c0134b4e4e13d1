# admin_settle

Settles the dispute on a peer-to-peer trade by order of its solver: the
seller's hold invoice is settled in the buyer's favor, the bonds are resolved
and the buyer is paid.

- `src/` is the handler of the request, verified with Verus. It decides what
  is to be done next and performs nothing itself. `model.rs` states what it
  does, `laws.rs` and `claims.rs` what follows for every run of it.
- `app/` performs what the handler asks for with the daemon's database,
  Lightning node and relays.
- `tests/` runs the handler against an order book of one order.
