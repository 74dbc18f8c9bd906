# Chain charity

The rules of a charity fund on a ledger, written and verified with Verus.

Anyone can donate tokens. Three administrators decide together what is paid
out: one creates a proposal, which counts as the first approval, and the
approval of a second one executes it. As long as a proposal waits, its proposer
can cancel it.

- `src/contract.rs` holds the calls: `initialize`, `donate`, `create_proposal`,
  `approve_proposal`, `cancel_proposal`, and the getters.
- `src/rules.rs` states for each call when it is refused and why, what the
  storage holds after it, and what it asks of the host, in order. The calls are
  proved to do just that.
- `src/laws.rs` proves what holds of every single call: that the storage is what
  the host is asked to store, that nothing is paid before the storage says so,
  that entries which a call does not write stay as they are.
- `src/history.rs` proves what holds after any calls at all: that the fund holds
  what was given and not paid out, that two administrators stand behind every
  payment, that a proposal is paid at most once.
- `src/payments.rs` proves what any calls ask of the host: one transfer for each
  executed proposal and none for any other, calls that two administrators
  authorized behind each, and transfers that cover what the fund says it holds.
- `src/storage.rs`, `src/host.rs` and `src/table.rs` hold the data that a call
  works on: the ledger entries, and the requests to the host.
- `app/` is the contract as the Soroban host runs it. It loads the entries of a
  call, hands them to the library, and carries out the requests.

The host carries the requests of a call out in order and as a whole. A call that
the library refuses panics in `app/`, upon which the host undoes it. The entries
that a call has loaded stay current until it ends, because the host does not let
a contract be called again while it is calling another one: soroban-env-host
makes calls between contracts with `ContractReentryMode::Prohibited`, and its
`src/host/frame.rs` refuses a contract that is already on the call stack.
