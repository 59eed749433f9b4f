# Subscription vault

A vault for prepaid subscriptions. Subscribers fund a subscription in advance, merchants
charge it and withdraw what they earned, and an admin sets the rules. The library is
written and verified with [Verus](https://github.com/verus-lang/verus).

## How it works

`Vault` holds everything that is stored, and the context in which an operation runs. An
operation takes a `&mut Vault`, checks its arguments, changes the vault, and records in
`Vault::actions` what it asks of the outside world: authorizations, token transfers and
published events. Where the operation returns `Ok`, whoever runs it stores the new state
first, so that no other contract is called while the old state is still in store, and then
performs these actions in order. If one of them fails, the stored state is undone with the
rest. Where the operation is refused, only the authorizations are demanded, and the new
state is dropped. A refused operation has published nothing.

`VaultState` is the mathematical view of a vault. For every operation there are two
specification functions: one says why it is refused, if it is, and one says what the vault
is afterwards.

## Layout

- `types`, `events`, `table`, `vault`: data, actions and the stored state
- `safe_math`, `state_machine`, `blocklist`, `accounting`, `statements`, `queries`: building
  blocks
- `admin`, `merchant`, `subscription`, `plans`, `limits`: the operations
- `calls`: the operations as values, so that laws can speak of all of them
- `laws`: authorization, events, refusals, the state machine
- `integrity`: what holds of a vault at all times
- `conservation`: what is owed, what is accounted for and what is transferred
- `reconciliation`: the earnings of a merchant explain its balance
- `journeys`: what holds across several operations
- `histories`: what holds of a vault after any history of operations
- `batches`: what a batch of charges publishes

`app/` turns the library into a contract: it converts arguments, loads and stores records,
and performs the actions. `tests/` plays the operations through on concrete values.
