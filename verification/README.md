# runstrate

A development node for a Substrate runtime: it runs the runtime in memory,
produces a block at a fixed pace and answers the RPC queries of user
interfaces such as Polkadot-JS from the blocks it has produced.

The library (`src/`) is written in Verus and verified:

- `hex_text`: the `0x`-prefixed hex text in which keys, values and
  extrinsics travel, and how storage keys are read from it.
- `hashing`: Blake2-256 and the block (header) hash.
- `block`: headers, digest logs and blocks.
- `keyed`: a map keyed by hashes.
- `state`: the state after a block, in an in-memory trie.
- `rpc_types`: the values that the RPC methods take and give.
- `chain`: the chain the node keeps and the RPC queries over it.
- `production`: the decisions of block production.
- `node`: what the node reports of itself, and its options.
- `laws`: what holds across the operations.

`app/` holds the program: option parsing, the RPC server, the runtime and the
block production loop.

Options:

```
      --host <HOST>              Websocket host [default: 0.0.0.0]
      --port <PORT>              Websocket port [default: 9944]
      --block-time <BLOCK_TIME>  milliseconds per block (0 = instant) [default: 6000]
```
