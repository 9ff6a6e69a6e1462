# hos_tla

The logic of the House of Stake TLA name-rental marketplace on NEAR, written
in Verus and proved against its contracts.

- `src/` is the verified library:
  - `strmap.rs`: an insertion-ordered string map (the registry's collections),
    with its abstract view and swap-remove order.
  - `types.rs`, `fees.rs`, `error.rs`, `events.rs`: entries, lifecycles, the
    fee schedule and rent pricing, error codes, NEP-297 event values and log
    lines.
  - `registry.rs`, `admin.rs`, `callbacks.rs`, `marketplace.rs`, `views.rs`,
    `resale.rs`: the registry as a state machine from call context and
    arguments to new state, event and requested action.
  - `sub_account_locker.rs`, `resale_locker.rs`, `manager.rs`: the custody
    lockers and the TLA manager.
  - `account.rs`: NEAR account ids (validity is asked of `near_sdk`).
  - `laws.rs`: properties that span operations (pull payments, the sale
    settlement, pause and admin gates, one-shot resale locks, custody).
- `tests/`: scenarios on concrete values.
- `app/`: the NEAR contracts around the library: they read the chain context,
  keep state in storage, and turn the library's answers into promises, logs
  and panics.
