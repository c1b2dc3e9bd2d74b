# raft

A Raft node whose decisions are verified with Verus.

- `src/state.rs`: the node's state, its constructor and its invariant (`State::wf`).
- `src/rpc.rs`: the receiver's side of AppendEntries, RequestVote and InstallSnapshot.
- `src/utils.rs`: role transitions (promotion to leader, demotion from leader).
- `src/timer.rs`: the election timer, its randomised timeout and its turn.
- `src/node.rs`: message dispatch, elections and the main loop's turn.
- `src/laws.rs`: properties that span several steps of a node.
- `app/main.rs`: the program: threads, sockets and the clock.
