use vstd::prelude::*;

use crate::state::{State, CANDIDATE, FOLLOWER, LEADER};

verus! {

/// Whether a node went from follower to leader between two observations of
/// its role.
pub open spec fn promoted_to_leader(current_node_type: i32, prev_node_type: i32) -> bool {
    current_node_type == LEADER && prev_node_type == FOLLOWER
}

/// Whether a node went from leader to follower or candidate between two
/// observations of its role.
pub open spec fn demoted_from_leader(current_node_type: i32, prev_node_type: i32) -> bool {
    (current_node_type == FOLLOWER || current_node_type == CANDIDATE) && prev_node_type == LEADER
}

/// Whether the node went from follower to leader.
pub fn node_promoted_to_leader(current_node_type: i32, prev_node_type: i32) -> (res: bool)
    ensures
        res == promoted_to_leader(current_node_type, prev_node_type),
{
    current_node_type == LEADER && prev_node_type == FOLLOWER
}

/// Whether the node went from leader to follower or candidate.
pub fn node_demoted_from_leader(current_node_type: i32, prev_node_type: i32) -> (res: bool)
    ensures
        res == demoted_from_leader(current_node_type, prev_node_type),
{
    (current_node_type == FOLLOWER || current_node_type == CANDIDATE) && prev_node_type == LEADER
}

/// Whether a candidate goes on with its election: it stops once it has
/// learnt of another leader, that is once it is a follower again.
pub fn node_still_candidate(node_state: &State) -> (res: bool)
    ensures
        res == (node_state.node_type != FOLLOWER),
{
    let node_type = node_state.node_type;
    if node_type == FOLLOWER {
        false
    } else {
        true
    }
}

/// Whether a leader goes on sending heartbeats: it stops once it has been
/// demoted to follower.
pub fn node_still_leader(node_state: &State) -> (res: bool)
    ensures
        res == (node_state.node_type != FOLLOWER),
{
    let node_type = node_state.node_type;
    if node_type == FOLLOWER {
        return false;
    }
    true
}

/// A change of role is never both a promotion to leader and a demotion from
/// leader.
pub proof fn promotion_and_demotion_exclusive(current_node_type: i32, prev_node_type: i32)
    ensures
        !(promoted_to_leader(current_node_type, prev_node_type)
            && demoted_from_leader(current_node_type, prev_node_type)),
{
}

/// A node that keeps its role is neither promoted nor demoted.
pub proof fn unchanged_role_is_no_transition(node_type: i32)
    ensures
        !promoted_to_leader(node_type, node_type),
        !demoted_from_leader(node_type, node_type),
{
}

} // verus!
