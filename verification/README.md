# campaign

A crowdfunding campaign on the Stellar network, verified with Verus.

- `src/` is the library. It decides: whether a campaign may start on the given
  terms, whether a donation is accepted and which transfer pays for it, what is
  stored and announced, and which moves a status may make. Every function has an
  exact contract, and `src/laws.rs` proves what holds over all calls, such as
  that the donors' records always add up to what the campaign has raised.
- `app/` is the Soroban contract around it. It asks the host for authorization,
  reads and writes storage, makes the token transfers and publishes the events
  that the library orders.
- `tests/` runs the library on concrete campaigns.

Addresses, asset codes and hashes are plain bytes in the library; `app/`
converts them from and to the host's objects.
