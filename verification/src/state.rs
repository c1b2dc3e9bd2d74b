use vstd::prelude::*;

verus! {

/// The role number of a follower.
pub const FOLLOWER: i32 = 1;

/// The role number of a candidate.
pub const CANDIDATE: i32 = 2;

/// The role number of a leader.
pub const LEADER: i32 = 3;

/// The state that one Raft node keeps.
pub struct State {
    // Persistent state
    /// Latest term the server has seen
    /// (initialized to 0 on first boot, increases monotonically).
    pub current_term: i32,
    /// Candidate id that received this node's vote in the current term
    /// (or none).
    pub voted_for: Option<i32>,
    /// Log entries; each holds a command for the state machine and the term
    /// in which the leader received it. The first index is 1: the entry at
    /// index `i` is `log[i - 1]`, and index 0 stands before the first entry.
    pub log: Vec<(String, i32)>,
    // Volatile state on all servers
    /// Index of the highest log entry known to be committed
    /// (initialized to 0, increases monotonically).
    pub commit_index: i32,
    /// Index of the highest log entry applied to the state machine
    /// (initialized to 0, increases monotonically).
    pub last_applied: i32,
    // Volatile state on leaders (re-initialized after an election)
    /// For each server, the index of the next log entry to send to it
    /// (initialized to the leader's last log index + 1).
    pub next_index: Vec<i32>,
    /// For each server, the index of the highest log entry known to be
    /// replicated on it (initialized to 0, increases monotonically).
    pub match_index: Vec<i32>,
    /// The node's role: `FOLLOWER`, `CANDIDATE` or `LEADER`.
    pub node_type: i32,
    // Flags between the node's activities
    /// Set when a message arrives, so that the election timer restarts.
    pub reset_timer: bool,
    /// Set by the election timer when it runs out.
    pub start_election: bool,
    /// Set when a leader must carry a new entry in its next heartbeat.
    pub propagate_message_in_heartbeat: bool,
    /// Votes gathered in the current election.
    pub vote_count: i32,
    /// Addresses (`ip:port`) of the other servers in the cluster.
    pub cluster: Vec<String>,
    /// This node's own address (`ip:port`).
    pub my_networking_info: String,
    /// Address of the leader this node knows of.
    pub leader: String,
}

/// Whether a role number names one of the three roles.
pub open spec fn is_role(node_type: i32) -> bool {
    node_type == FOLLOWER || node_type == CANDIDATE || node_type == LEADER
}

/// `n` copies of `value`.
pub open spec fn repeated(n: nat, value: i32) -> Seq<i32> {
    Seq::new(n, |i: int| value)
}

/// A vector of `n` copies of `value`.
pub(crate) fn filled(n: usize, value: i32) -> (v: Vec<i32>)
    ensures
        v@ == repeated(n as nat, value),
{
    let mut v: Vec<i32> = Vec::new();
    let mut i: usize = 0;
    while i < n
        invariant
            i <= n,
            v@ == repeated(i as nat, value),
        decreases n - i,
    {
        v.push(value);
        i = i + 1;
        assert(v@ =~= repeated(i as nat, value));
    }
    v
}

impl State {
    /// The invariant that every operation of the library keeps: the role is
    /// one of the three; the term and the commit index are not negative; the
    /// commit index stays within the log; and the leader's indices hold one
    /// slot for each server of the cluster.
    pub open spec fn wf(&self) -> bool {
        &&& is_role(self.node_type)
        &&& self.current_term >= 0
        &&& self.commit_index >= 0
        &&& self.commit_index <= self.log@.len()
        &&& self.next_index@.len() == self.cluster@.len()
        &&& self.match_index@.len() == self.cluster@.len()
    }

    /// A fresh node: a follower in term 0 with an empty log, no vote, and all
    /// flags down. For each server of the cluster, the next index is 1 (the
    /// empty log's last index plus one) and the match index is 0.
    pub fn new(cluster: Vec<String>, my_networking_info: String) -> (state: State)
        ensures
            state.current_term == 0,
            state.voted_for is None,
            state.log@.len() == 0,
            state.commit_index == 0,
            state.last_applied == 0,
            state.next_index@ == repeated(cluster@.len(), 1),
            state.match_index@ == repeated(cluster@.len(), 0),
            state.node_type == FOLLOWER,
            !state.reset_timer,
            !state.start_election,
            !state.propagate_message_in_heartbeat,
            state.vote_count == 0,
            state.cluster == cluster,
            state.my_networking_info == my_networking_info,
            state.leader@ == Seq::<char>::empty(),
            state.wf(),
    {
        let log: Vec<(String, i32)> = Vec::new();
        let next_index = filled(cluster.len(), 1);
        let match_index = filled(cluster.len(), 0);
        State {
            current_term: 0,
            voted_for: None,
            log: log,
            commit_index: 0,
            last_applied: 0,
            next_index: next_index,
            match_index: match_index,
            node_type: FOLLOWER,
            reset_timer: false,
            start_election: false,
            propagate_message_in_heartbeat: false,
            cluster: cluster,
            my_networking_info: my_networking_info,
            leader: String::new(),
            vote_count: 0,
        }
    }
}

} // verus!
