# surfnet_runloops

The runloops of a local Solana test network, as a library of verified decisions
and an application that carries them out.

Each runloop is a state machine: the library says what to do next (`..Action`),
and is told what came of it (`..Input`). The contract of `step` is the transition
function `next`; laws over whole runs are the public proof functions named
`law_..`.

| module | what it decides |
| --- | --- |
| `clock` | when the clock ticks and when the blockhash expires |
| `block_production` | when a block is produced, and in which steps |
| `geyser` | how plugins are mounted and notified of transactions |
| `transaction` | which transactions the plugins are shown, and with what status |
| `rpc` | how the RPC server is brought up and how its thread ends |
| `startup` | the order in which the network comes up |
| `failure`, `event` | what is reported, and in which words |

`app/` holds the threads, channels, locks and sockets. The library calls two
outside functions, both in `transaction`: `SanitizedTransaction::try_create`, and
`VersionedTransaction::sanitize` to tell beforehand what may be handed to it. Their
wrappers say what is taken on trust.
