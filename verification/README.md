# mbongo-network

The verified core of a minimal libp2p node for the Mbongo devnet: block sync and block
announcements between peers.

The library in `src/` holds every decision of the node and none of its input and output. The event
loop feeds it one input after the other (a block to broadcast, a command of the sync orchestrator,
something that happened in the swarm) and performs the actions that come back. What the node does
is stated in contracts and proved by [Verus](https://github.com/verus-lang/verus).

| Module | Holds |
| --- | --- |
| `protocol` | the messages of the two request/response protocols |
| `event` | what reaches the node, and what it has the swarm do |
| `node` | the node, its model, and the contract of each of its operations |
| `laws` | what holds whatever happens to the node |
| `requests` | the set of block requests that wait for an answer |
| `outlet` | a channel out of the node, with the record of all that was sent on it |
| `link` | a channel into the node, whose senders are handed out |
| `broadcast` | handles through which blocks are announced |
| `address` | the addresses to listen on and to dial |
| `calls` | calls through function values |
| `outside` | what is believed of `libp2p` and `tokio` |

`app/` builds the swarm around the node.
