# dln-e2e-harness

End-to-end tests of dln-node, and of the two-chain exchange that is built on it:
what they ask of the chains, the relay and the nodes, in what order, how long
they wait, and what they conclude. The decisions are a Verus library, whose
contracts say what is decided; the program around it performs what the library
asks for and hands back what came of it.

## Scenarios

- `two_chains`: two regtest chains, two nodes on each, a channel on each.
- `lightning_swap`: the same, and then a swap of one coin for the other over
  hold invoices that share a secret.
- `swap_on_btk`: the swap, with the second chain past its header fork.
- `swap_on_signets`: the swap on two live signets, which are attached to and
  never mined.
- The system test: a dln-node and an lnrod node, a channel between them, a
  payment each way, and a close. The program cannot start it: lnrod's admin
  interface needs bindings from lnrod's own protocol definition, behind the
  `Admin` trait of `app/lnrod.rs`.

## Layout

- `src/` is the library. A scenario is a machine: `ask` says what it wants, and
  `step` takes the answer.
  - `exchange`, `run`, `legs`: the program of an exchange, the machine that runs
    it, and the two legs of the swap. `guarantees` states what holds of a run.
  - `system_test`: the machine of the system test.
  - `bitcoind`, `header`: the chain daemon's RPC, and the check of its headers.
  - `dln_node_client`, `lnrod_client`, `process`, `relay`: how the processes are
    started and driven.
  - `control`, `wallet`, `grants`, `events`: the requests that travel over the
    relay, and their replies.
  - `codec`, `json`, `text`, `outcome`, `util`: what the others are built from.
- `app/` is the program: containers, HTTP, relays, child processes, the clock.
- `tests/` run the library on concrete values.

## Environment

| Variable | Meaning |
| --- | --- |
| `OUTPUT_DIR` | where logs go, in place of a fresh directory |
| `KEEP_OUTPUT` | keep them after the system test |
| `DLN_NODE_BINARY`, `ELN_NODE_BINARY` | a pre-built dln-node |
| `ELN_SIGNER_BINARY`, `LNROD_BINARY`, `VLS_NOSTR_PROXY_BINARY` | the other pre-built binaries |
| `KNOTS_NODE_DIR`, `KNOTS_FEATURES` | the checkout of the Knots node, and the features to build it with |
| `SIGNET_RPC_HOST`, `BTC_TREASURY_RPCPASS`, `BTK_TREASURY_RPCPASS` | the live signets |
