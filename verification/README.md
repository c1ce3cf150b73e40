# hyper_lifecycle

The connection-lifecycle and recovery policy of a node, as a verified
library.

- `recovery_policy` — the pure policy core: the effect diagnosis vocabulary
  (`diagnosis`), the failure classification table, release-mask algebra and
  backoff arithmetic (`classification`), the eight discrete lifecycle machines
  (`machines`), and the `translate` reducer that turns one input into a
  decision, with the composite action table and the send projection
  (`translate`).
- `connection_supervisor` — the supervisor that applies decisions to its
  policy snapshot, allocates timer and effect identities, starts effects, and
  keeps its invariants; plus the compatibility batch selector and the mapping
  from public events to supervisor inputs.
- `network_event` — the public event, action, error and teardown-report
  vocabulary and its mappings.
- `network_event` also holds the per-kind debounce state.
- `credential_manager` — the credential renewal decisions: which path a
  renewal takes, how issuer failures are answered, how renew and reissue
  replies are checked before anything is committed, and the retry backoff
  ladder.
- `actor_errors` — the status codes and guest ABI classes that actor errors
  are reported with.
- `node_gate` — how a registration reply is read at start-up and how an
  incoming message is admitted before dispatch.
- `recovery_execution`, `expiry`, `membership`, `machine_docs` — the execution
  phase tracker, clock-jump tolerant expiry verdicts, membership request
  decisions, and canonical machine documentation.

Every function in `src/` carries a contract proved by Verus; the laws of the
library are stated as proof functions next to the code they are about.

`app/` holds the asynchronous shell (channels, timers, effect tasks, the event
handle and the processor trait) that drives the supervisor.
