# liquifact_escrow

An invoice escrow: investors fund an invoice up to a target, the SME withdraws the funded
liquidity or settles after maturity, investors mark payout claims, and an admin governs the
funding target, the maturity, the admin role and a compliance (legal) hold that blocks
funding, settlement, withdrawal and claims. The SME may record a collateral pledge, which is
metadata only.

- `src/` is the verified library. `LiquifactEscrow` is one escrow's storage; each call
  decides from the storage and its arguments, and returns an `Outcome`: the addresses whose
  authorization it demands, and either the refusal or the accepted effect (return value,
  event, storage entries written). `model.rs` states the storage as a value and each call's
  refusals and resulting storage; `laws.rs` proves properties that span calls, including over any sequence of calls
  (`model::run`).
- `app/` runs the library as a Soroban contract: it loads instance-storage entries into the
  model, demands the named authorization, writes the named entries and publishes the event.
- `tests/` exercises the library on concrete and randomized runs.
