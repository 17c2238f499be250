# rayls_execution

The verified core of the Rayls execution layer, written in Verus.

`src/` holds the logic with its contracts and proofs:

- `precompile`, `abi`, `storage`, `events`, `errors`, `eip3009`: the native
  ERC-20 precompile at `0x…0400` — calldata decoding, storage slots, every
  handler (transfers, approvals, mint and burn, EIP-3009 authorizations) as an
  exact function from state to outcome, and the revert messages.
- `state`: the interface to the EVM's journaled state, stated over an
  abstract view, and an in-memory implementation.
- `inspector`: the call interception that serves the precompile before the
  gas fix and logs `Transfer` events for native value moves.
- `token_laws`: properties of the token across calls (an approval is read
  back, transfers move exactly the amount, an authorization is used once, …).
- `persistence`, `execution`, `faucet`, `node`: the decisions of the node —
  when to persist blocks, how fees split, which nonce the faucet uses, what a
  faucet request is answered.
- `genesis`, `system_contracts`, `migrations`, `keyed`, `json_path`: genesis
  allocation fixes, hardfork state migrations, contract-address derivation,
  library linking and reading compiler artifacts.
- `bytes`, `uint`, `address`, `hash`, `text`: the word, address and byte
  arithmetic everything above is stated in.

Calls into `alloy`, `secp256k1` and `humantime` stand behind trusted wrappers
in the modules that make them; each wrapper's doc comment says what its
contract claims.

`app/` converts between the library's values and `alloy` types, gives the
errors their `Display` forms, parses JSON with `serde_json` and keeps the
faucet's time-expiring caches. `tests/` exercises the library on concrete
values.

## Not in this crate

The parts of the execution layer that drive reth and revm are not here,
because those crates are not available to build against: the EVM and its
system and pre-genesis transactions (and with them the genesis simulation
that deploys the registry and the system proxies), the inspector's glue to
revm's interpreter, the persistence service loop (sending batches,
waiting on replies, pruning the in-memory chain), the trie-input
computation, the RPC server and the metrics server, and the Google Cloud
KMS client. The decisions each of them makes are in `src/`
(`persistence`, `inspector`, `genesis`, `faucet`) and take the outcomes of
that work as arguments.
