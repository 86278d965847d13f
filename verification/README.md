# sui_rules

Two sets of rules of a Sui node, written in Verus and proved against their contracts.

- The deny list of regulated coins: which sender may not use which coin type, as of which epoch
  (`deny_list_v2`, `signing`, with `move_types` and `object_store`).
- The bridge indexer's worker for Ethereum: where it starts to follow the bridge contract, in
  which order it sets up its streams, and which records it makes of which log entries
  (`eth_worker`, `eth_stream`, `eth_event`, with `eth_address`, `u256`, `transfer`, `config`,
  `decimal` and `startup`).

The library does no input or output. Where a rule needs something from outside, it is a small
state machine (`SigningCheck`, `EthRun`, `EthEventStream`): it names the next action, and its
caller performs the action and hands back what came of it. `app/` is such a caller; it talks to the
object store, the database and the Ethereum node.

What is believed without proof are three calls into `ethers`: `U256::as_u64` (in `u256`),
`Address::from_str` (in `eth_address`) and `Provider::<Http>::try_from` (in `eth_worker`). The proof
functions whose names begin with `law_` state what holds of the library as a whole.
