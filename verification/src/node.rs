use vstd::prelude::*;
use vstd::string::*;

use crate::state::{filled, repeated, State, CANDIDATE, FOLLOWER, LEADER};
use crate::utils::{node_promoted_to_leader, node_still_candidate, promoted_to_leader};

verus! {

/// The text of a heartbeat.
pub const HEARTBEAT_MSG: &'static str = "Heartbeat\n";

/// How long a leader waits between two rounds of heartbeats, in
/// milliseconds.
pub const HEARTBEAT_INTERVAL_MS: u64 = 100;

/// The text of an AppendEntries call.
pub const APPEND_ENTRIES_MSG: &'static str = "Append Entries\n";

/// The text of a RequestVote call.
pub const REQUEST_VOTES_MSG: &'static str = "Request Votes\n";

/// The text of an InstallSnapshot call.
pub const INSTALL_SNAPSHOTS_MSG: &'static str = "Install Snapshot\n";

/// The text of a vote, sent back to a candidate.
pub const VOTE_MSG: &'static str = "Vote\n";

/// The kinds of message that a node tells apart.
#[derive(Debug, Clone, Copy, PartialEq, Eq, Structural)]
pub enum MessageKind {
    AppendEntries,
    RequestVote,
    InstallSnapshot,
    Vote,
    /// Any other text, a heartbeat among them.
    Other,
}

/// The kind of a message, from its text.
pub open spec fn message_kind(msg: Seq<char>) -> MessageKind {
    if msg == APPEND_ENTRIES_MSG@ {
        MessageKind::AppendEntries
    } else if msg == REQUEST_VOTES_MSG@ {
        MessageKind::RequestVote
    } else if msg == INSTALL_SNAPSHOTS_MSG@ {
        MessageKind::InstallSnapshot
    } else if msg == VOTE_MSG@ {
        MessageKind::Vote
    } else {
        MessageKind::Other
    }
}

/// Tells the kind of a message from its text.
pub fn classify_message(msg: &String) -> (kind: MessageKind)
    ensures
        kind == message_kind(msg@),
{
    if *msg == String::from_str(APPEND_ENTRIES_MSG) {
        MessageKind::AppendEntries
    } else if *msg == String::from_str(REQUEST_VOTES_MSG) {
        MessageKind::RequestVote
    } else if *msg == String::from_str(INSTALL_SNAPSHOTS_MSG) {
        MessageKind::InstallSnapshot
    } else if *msg == String::from_str(VOTE_MSG) {
        MessageKind::Vote
    } else {
        MessageKind::Other
    }
}

/// How a node is to handle a message that has arrived.
#[derive(Debug, Clone, Copy, PartialEq, Eq, Structural)]
pub enum Incoming {
    /// The node leads: the message is a client's command, to go into the log
    /// and out to the followers.
    ClientCommand,
    /// The node follows or stands for election: the message is a call of
    /// the given kind.
    Rpc(MessageKind),
}

/// The node's state once a message has arrived.
pub open spec fn state_after_message(s: State) -> State {
    State { reset_timer: true, ..s }
}

/// Receives a message: any message restarts the election timer (it raises
/// `reset_timer`); a leader takes it as a client's command, any other node
/// as a call of the kind its text names.
pub fn on_message_received(node_state: &mut State, msg: &String) -> (action: Incoming)
    ensures
        *final(node_state) == state_after_message(*old(node_state)),
        action == (if old(node_state).node_type == LEADER {
            Incoming::ClientCommand
        } else {
            Incoming::Rpc(message_kind(msg@))
        }),
        old(node_state).wf() ==> final(node_state).wf(),
{
    let node_type = node_state.node_type;
    node_state.reset_timer = true;
    if node_type == LEADER {
        Incoming::ClientCommand
    } else {
        Incoming::Rpc(classify_message(msg))
    }
}

/// The number of votes that a candidate must exceed to win: half of all the
/// servers, rounded down. The cluster lists the other servers, so all the
/// servers are the cluster and this node.
pub open spec fn votes_to_exceed(cluster_len: nat) -> int {
    (cluster_len as int + 1) / 2
}

/// The number of votes that a candidate must exceed to win, in a cluster of
/// `cluster_len` other servers (see `votes_to_exceed`).
pub fn majority_threshold(cluster_len: usize) -> (threshold: usize)
    ensures
        threshold == votes_to_exceed(cluster_len as nat),
{
    cluster_len / 2 + cluster_len % 2
}

/// The node's state once it has started an election.
pub open spec fn state_after_begin_election(s: State) -> State {
    State { node_type: CANDIDATE, current_term: (s.current_term + 1) as i32, reset_timer: true, ..s }
}

/// Whether a node can start an election: its next term fits an `i32`.
pub open spec fn can_begin_election(s: State) -> bool {
    s.current_term < i32::MAX
}

/// Starts an election: the node becomes a candidate in the next term, and
/// the election timer restarts. Returns the number of votes that the
/// candidate must exceed to win (see `votes_to_exceed`).
pub fn begin_election(node_state: &mut State) -> (threshold: usize)
    requires
        can_begin_election(*old(node_state)),
    ensures
        *final(node_state) == state_after_begin_election(*old(node_state)),
        threshold == votes_to_exceed(old(node_state).cluster@.len()),
        // the election runs in a new, later term
        final(node_state).current_term == old(node_state).current_term + 1,
        old(node_state).wf() ==> final(node_state).wf(),
{
    node_state.node_type = CANDIDATE;
    node_state.current_term = node_state.current_term + 1;
    node_state.reset_timer = true;
    majority_threshold(node_state.cluster.len())
}

/// Whether a candidate with `vote_count` votes has won, where it must
/// exceed `threshold` votes.
pub fn election_won(vote_count: usize, threshold: usize) -> (won: bool)
    ensures
        won == (vote_count > threshold),
{
    vote_count > threshold
}

/// Where an election stands after a vote request has gone out.
#[derive(Debug, Clone, Copy, PartialEq, Eq, Structural)]
pub enum ElectionProgress {
    /// The candidate has won and now leads.
    Won,
    /// The candidate has gone back to follower: the election stops.
    Abandoned,
    /// The election goes on with the next server.
    Continuing,
}

/// Whether a candidate in state `s` with `vote_count` votes, its own
/// among them, holds a majority of all the servers.
pub open spec fn holds_majority(s: State, vote_count: usize) -> bool {
    vote_count > votes_to_exceed(s.cluster@.len())
}

/// Where an election stands after a vote request, for a candidate in state
/// `s` with `vote_count` votes.
pub open spec fn progress_after_vote_request(s: State, vote_count: usize) -> ElectionProgress {
    if holds_majority(s, vote_count) {
        ElectionProgress::Won
    } else if s.node_type == FOLLOWER {
        ElectionProgress::Abandoned
    } else {
        ElectionProgress::Continuing
    }
}

/// Every field but the leader's indices of the candidate's state after that
/// decision: a winner leads.
pub open spec fn state_after_vote_request(s: State, vote_count: usize) -> State {
    if holds_majority(s, vote_count) {
        State { node_type: LEADER, ..s }
    } else {
        s
    }
}

/// The next index that a new leader keeps for each server: its last log
/// index plus one.
pub open spec fn leader_next_index(s: State) -> Seq<i32> {
    repeated(s.cluster@.len(), (s.log@.len() + 1) as i32)
}

/// The decision a candidate takes after each vote request it sends, holding
/// `vote_count` votes, its own among them. With a majority of all the
/// servers (see `holds_majority`) it becomes leader, and its indices start
/// afresh: for each server, the next index is its last log index plus one
/// and the match index is 0. Having become a follower again it gives up.
/// Otherwise it goes on.
pub fn after_vote_request(node_state: &mut State, vote_count: usize) -> (progress: ElectionProgress)
    requires
        old(node_state).log@.len() < i32::MAX,
    ensures
        progress == progress_after_vote_request(*old(node_state), vote_count),
        *final(node_state) == (State {
            next_index: final(node_state).next_index,
            match_index: final(node_state).match_index,
            ..state_after_vote_request(*old(node_state), vote_count)
        }),
        final(node_state).next_index@ == (if holds_majority(*old(node_state), vote_count) {
            leader_next_index(*old(node_state))
        } else {
            old(node_state).next_index@
        }),
        final(node_state).match_index@ == (if holds_majority(*old(node_state), vote_count) {
            repeated(old(node_state).cluster@.len(), 0)
        } else {
            old(node_state).match_index@
        }),
        old(node_state).wf() ==> final(node_state).wf(),
{
    let threshold = majority_threshold(node_state.cluster.len());
    if election_won(vote_count, threshold) {
        node_state.node_type = LEADER;
        let next = (node_state.log.len() + 1) as i32;
        node_state.next_index = filled(node_state.cluster.len(), next);
        node_state.match_index = filled(node_state.cluster.len(), 0);
        return ElectionProgress::Won;
    }
    if !node_still_candidate(node_state) {
        return ElectionProgress::Abandoned;
    }
    ElectionProgress::Continuing
}

/// What one turn of a node's main loop asks for.
#[derive(Debug, Clone, Copy, PartialEq, Eq, Structural)]
pub struct LoopStep {
    /// Start an election.
    pub start_election: bool,
    /// Start sending heartbeats.
    pub start_heartbeats: bool,
    /// The role the node had at this turn, to compare with at the next.
    pub node_type: i32,
}

/// What a turn of the main loop asks of a node in state `s` whose role at
/// the previous turn was `prev_node_type`.
pub open spec fn loop_step(s: State, prev_node_type: i32) -> LoopStep {
    LoopStep {
        start_election: s.start_election,
        start_heartbeats: promoted_to_leader(s.node_type, prev_node_type),
        node_type: s.node_type,
    }
}

/// The node's state after a turn of the main loop: the election flag is
/// down.
pub open spec fn state_after_loop_step(s: State) -> State {
    State { start_election: false, ..s }
}

/// One turn of a node's main loop, given the role it had at the previous
/// turn. A raised `start_election` flag is taken down and an election is
/// asked for; a node promoted from follower to leader is asked to start
/// sending heartbeats.
pub fn main_loop_step(node_state: &mut State, prev_node_type: i32) -> (step: LoopStep)
    ensures
        step == loop_step(*old(node_state), prev_node_type),
        *final(node_state) == state_after_loop_step(*old(node_state)),
        old(node_state).wf() ==> final(node_state).wf(),
{
    let start_election = node_state.start_election;
    let current_node_type = node_state.node_type;
    if start_election {
        node_state.start_election = false;
    }
    let start_heartbeats = node_promoted_to_leader(current_node_type, prev_node_type);
    LoopStep { start_election, start_heartbeats, node_type: current_node_type }
}

/// Reads a node's command line: the program's name, this node's address,
/// and one other server's address. Any other number of arguments is
/// refused (`None`); otherwise the cluster (the arguments after this node's
/// address) and this node's address.
pub fn parse_args(args: &Vec<String>) -> (res: Option<(Vec<String>, String)>)
    ensures
        res is None <==> args@.len() != 3,
        res matches Some((cluster, me)) ==> {
            &&& cluster@ == args@.subrange(2, args@.len() as int)
            &&& me == args@[1]
        },
{
    if args.len() != 3 {
        return None;
    }
    let mut cluster: Vec<String> = Vec::new();
    let mut n: usize = 2;
    while n < args.len()
        invariant
            2 <= n <= args@.len(),
            cluster@ == args@.subrange(2, n as int),
        decreases args@.len() - n,
    {
        cluster.push(args[n].clone());
        assert(cluster@ =~= args@.subrange(2, n + 1));
        n = n + 1;
    }
    let my_networking_info = args[1].clone();
    Some((cluster, my_networking_info))
}

} // verus!
