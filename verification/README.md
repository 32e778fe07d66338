# safe_core transfer client, verified

The client side of the network's money transfers: the decisions taken while
retrieving and applying an account's transfer history, paying for a write, and
fetching the replicas' key set, together with the client's error types.

- `src/` is the verified library (Verus).
  - `errors.rs`: `ClientError` with its debug text, `CoreError`, and their conversions.
  - `text.rs`: the substring test that tells a tolerated actor error apart.
  - `transfer_actor/history.rs`, `payment.rs`, `setup.rs`: each operation as a state
    machine from stage and event to next stage and action, with an exact contract per
    step and laws over whole runs (what precedes what, and that every run ends).
  - `transfer_actor/validator.rs`: the client's replica validator.
- `app/` performs the machines' actions: network I/O and the local transfer actor.
- `tests/` runs the library on concrete inputs.
