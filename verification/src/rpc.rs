use vstd::prelude::*;

use crate::state::{State, CANDIDATE, FOLLOWER};

verus! {

/// The term of the entry at `index` in `log` (indices start at 1); 0 for
/// index 0, which stands before the first entry, and for indices past the
/// log's end.
pub open spec fn entry_term(log: Seq<(String, i32)>, index: int) -> int {
    if 1 <= index <= log.len() {
        log[index - 1].1 as int
    } else {
        0
    }
}

/// The term of the last entry of `log`, 0 for an empty log.
pub open spec fn last_entry_term(log: Seq<(String, i32)>) -> int {
    entry_term(log, log.len() as int)
}

/// The receiver's state once it has seen a call in `term`: a later term
/// than its own becomes its current term, with no vote cast in it yet, and
/// the receiver follows; otherwise nothing changes.
pub open spec fn observe_term(s: State, term: i32) -> State {
    if term > s.current_term {
        State { current_term: term, voted_for: None, node_type: FOLLOWER, ..s }
    } else {
        s
    }
}

/// Whether a receiver in state `s` accepts an AppendEntries call: the
/// leader's term is not stale, and the receiver's log holds an entry at
/// `prev_log_index` whose term is `prev_log_term` (index 0, before the first
/// entry, always matches).
pub open spec fn append_accepted(s: State, term: i32, prev_log_index: usize, prev_log_term: i32) -> bool {
    &&& term >= s.current_term
    &&& (prev_log_index == 0 || (prev_log_index <= s.log@.len() && entry_term(s.log@, prev_log_index as int)
        == prev_log_term))
}

/// Whether the new entry `entries[j]`, which goes to index `prev + j + 1`,
/// is already in `log` with the same term.
pub open spec fn agrees_at(log: Seq<(String, i32)>, prev: int, entries: Seq<(String, i32)>, j: int) -> bool {
    &&& prev + j < log.len()
    &&& log[prev + j].1 == entries[j].1
}

/// The position, from `j` on, of the first new entry that the log does not
/// already hold with the same term; `entries.len()` where there is none.
pub open spec fn first_new(log: Seq<(String, i32)>, prev: int, entries: Seq<(String, i32)>, j: nat) -> nat
    decreases entries.len() - j,
{
    if j >= entries.len() {
        entries.len()
    } else if agrees_at(log, prev, entries, j as int) {
        first_new(log, prev, entries, j + 1)
    } else {
        j
    }
}

/// The log after an accepted AppendEntries call whose entries follow index
/// `prev`. Entries that the log already holds with the same term stay; from
/// the first that it does not hold, the log is cut (an existing entry there
/// conflicts with the new one, and it and all that follow it go) and the
/// rest of the new entries are appended. A call that brings nothing new
/// leaves the log as it is.
pub open spec fn log_after_append(log: Seq<(String, i32)>, prev: int, entries: Seq<(String, i32)>) -> Seq<(String, i32)> {
    let j = first_new(log, prev, entries, 0);
    if j == entries.len() {
        log
    } else {
        log.take(prev + j) + entries.skip(j as int)
    }
}

/// The index of the last new entry of an AppendEntries call: the index it
/// follows, plus the number of entries it brings.
pub open spec fn last_new_entry_index(prev_log_index: usize, n_entries: nat) -> int {
    prev_log_index + n_entries
}

/// The commit index after an accepted AppendEntries call: where the leader
/// has committed further than the receiver, the smaller of the leader's
/// commit index and the index of the last new entry, if that is further
/// than the receiver's commit index; otherwise unchanged. The commit index
/// never goes back.
pub open spec fn commit_after_append(commit_index: i32, leader_commit: i32, last_new: int) -> int {
    let target = if leader_commit <= last_new {
        leader_commit as int
    } else {
        last_new
    };
    if leader_commit > commit_index && target > commit_index {
        target
    } else {
        commit_index as int
    }
}

/// Every field but the log of the receiver's state after an AppendEntries
/// call: the call's term is observed (see `observe_term`); a candidate that
/// hears from a leader whose term is at least its own returns to follower;
/// an accepted call moves the commit index (see `commit_after_append`).
pub open spec fn state_after_append(
    s: State,
    term: i32,
    prev_log_index: usize,
    prev_log_term: i32,
    n_entries: nat,
    leader_commit: i32,
) -> State {
    let seen = observe_term(s, term);
    let heard = if term >= s.current_term && seen.node_type == CANDIDATE {
        State { node_type: FOLLOWER, ..seen }
    } else {
        seen
    };
    if append_accepted(s, term, prev_log_index, prev_log_term) {
        State {
            commit_index: commit_after_append(
                heard.commit_index,
                leader_commit,
                last_new_entry_index(prev_log_index, n_entries),
            ) as i32,
            ..heard
        }
    } else {
        heard
    }
}

/// Writes the entries of an accepted AppendEntries call into `log`, after
/// index `prev_log_index` (see `log_after_append`).
fn write_entries(log: &mut Vec<(String, i32)>, prev_log_index: usize, entries: &Vec<(String, i32)>)
    requires
        prev_log_index <= old(log)@.len(),
    ensures
        final(log)@ == log_after_append(old(log)@, prev_log_index as int, entries@),
        final(log)@.len() >= prev_log_index + entries@.len(),
        final(log)@.take(prev_log_index as int) == old(log)@.take(prev_log_index as int),
        forall|j: int| 0 <= j < entries@.len() ==> #[trigger] final(log)@[prev_log_index + j].1 == entries@[j].1,
{
    let ghost old_log = log@;
    let n = entries.len();

    // Skip the entries that the log already holds with the same term.
    let mut j: usize = 0;
    while j < n && j < log.len() - prev_log_index && log[prev_log_index + j].1 == entries[j].1
        invariant
            log@ == old_log,
            n == entries@.len(),
            j <= n,
            prev_log_index <= old_log.len(),
            j <= old_log.len() - prev_log_index,
            forall|k: int| 0 <= k < j ==> agrees_at(old_log, prev_log_index as int, entries@, k),
            first_new(old_log, prev_log_index as int, entries@, 0) == first_new(
                old_log,
                prev_log_index as int,
                entries@,
                j as nat,
            ),
        decreases n - j,
    {
        j = j + 1;
    }

    // From the first new one on, cut the log and append the rest.
    if j < n {
        log.truncate(prev_log_index + j);
        let mut k: usize = j;
        while k < n
            invariant
                n == entries@.len(),
                j <= k <= n,
                prev_log_index + j <= old_log.len(),
                log@ == old_log.take(prev_log_index + j) + entries@.subrange(j as int, k as int),
            decreases n - k,
        {
            let entry = (entries[k].0.clone(), entries[k].1);
            log.push(entry);
            assert(log@ =~= old_log.take(prev_log_index + j) + entries@.subrange(j as int, k + 1));
            k = k + 1;
        }
        assert(entries@.subrange(j as int, n as int) =~= entries@.skip(j as int));
    }

    proof {
        let new_log = log@;
        assert forall|i: int| 0 <= i < entries@.len() implies #[trigger] new_log[prev_log_index + i].1
            == entries@[i].1 by {
            if i < j {
                assert(agrees_at(old_log, prev_log_index as int, entries@, i));
            }
        }
        assert(new_log.take(prev_log_index as int) =~= old_log.take(prev_log_index as int));
    }
}

/// The AppendEntries RPC, on the receiver's side.
///
/// The reply carries the receiver's current term, after it has observed the
/// call's term, and whether it accepts the call (see `append_accepted`). An
/// accepted call writes its entries into the log after `prev_log_index` (see
/// `log_after_append`) and may move the commit index forward; the other
/// fields change as `state_after_append` says.
#[allow(non_snake_case)]
pub fn append_entries(
    node_state: &mut State,
    term: i32,
    leader_ID: i32,
    prev_log_index: usize,
    prev_log_term: i32,
    entries: Vec<(String, i32)>,
    leader_commit: i32,
) -> (res: (i32, bool))
    ensures
        res.1 == append_accepted(*old(node_state), term, prev_log_index, prev_log_term),
        *final(node_state) == (State {
            log: final(node_state).log,
            ..state_after_append(*old(node_state), term, prev_log_index, prev_log_term, entries@.len(), leader_commit)
        }),
        final(node_state).log@ == (if res.1 {
            log_after_append(old(node_state).log@, prev_log_index as int, entries@)
        } else {
            old(node_state).log@
        }),
        res.0 == final(node_state).current_term,
        // a stale leader is refused
        term < old(node_state).current_term ==> !res.1,
        // an accepted call keeps the entries up to `prev_log_index`, and every
        // new entry stands in the log at its index with its term
        res.1 ==> {
            &&& final(node_state).log@.len() >= prev_log_index + entries@.len()
            &&& final(node_state).log@.take(prev_log_index as int) == old(node_state).log@.take(prev_log_index as int)
            &&& forall|j: int| 0 <= j < entries@.len() ==>
                #[trigger] final(node_state).log@[prev_log_index + j].1 == entries@[j].1
        },
        // the term and the commit index never go back, and the term is at
        // least the latest term seen
        final(node_state).current_term >= old(node_state).current_term,
        final(node_state).current_term >= term,
        final(node_state).commit_index >= old(node_state).commit_index,
        // the invariant of the state is kept, unless the call cuts the log
        // below the receiver's commit index
        old(node_state).wf() && final(node_state).log@.len() >= old(node_state).commit_index
            ==> final(node_state).wf(),
{
    if term > node_state.current_term {
        node_state.current_term = term;
        node_state.voted_for = None;
        node_state.node_type = FOLLOWER;
    } else if term < node_state.current_term {
        return (node_state.current_term, false);
    }
    if node_state.node_type == CANDIDATE {
        node_state.node_type = FOLLOWER;
    }

    if prev_log_index > 0 {
        if prev_log_index > node_state.log.len() {
            return (node_state.current_term, false);
        }
        let log_term = node_state.log[prev_log_index - 1].1;
        if log_term != prev_log_term {
            return (node_state.current_term, false);
        }
    }

    write_entries(&mut node_state.log, prev_log_index, &entries);
    let n = entries.len();

    let commit_index = node_state.commit_index;
    let index_of_last_new_entry: i128 = prev_log_index as i128 + n as i128;

    if leader_commit > commit_index {
        let new_commit: i32 = if (leader_commit as i128) <= index_of_last_new_entry {
            leader_commit
        } else {
            index_of_last_new_entry as i32
        };
        if new_commit > commit_index {
            node_state.commit_index = new_commit;
        }
    }
    (node_state.current_term, true)
}

/// The InstallSnapshot RPC, on the receiver's side. Snapshots are not taken
/// yet: the call reports term 1 and keeps nothing of what it is handed.
#[allow(non_snake_case)]
pub fn install_snapshots(
    term: i32,
    leader_ID: i32,
    last_included_index: i32,
    last_included_term: i32,
    offset: i32,
    data: Vec<i32>,
    done: bool,
) -> (res: i32)
    ensures
        res == 1,
{
    1
}

/// Whether a candidate whose log ends at `last_log_index` with an entry of
/// term `last_log_term` holds a log at least as up to date as `log`: its
/// last term is later, or the same with a log at least as long.
pub open spec fn candidate_up_to_date(log: Seq<(String, i32)>, last_log_index: i32, last_log_term: i32) -> bool {
    ||| last_log_term > last_entry_term(log)
    ||| (last_log_term == last_entry_term(log) && last_log_index >= log.len())
}

/// Whether a receiver in state `s` grants its vote to `candidate_id`, whose
/// term is `term` and whose log ends at `last_log_index` in term
/// `last_log_term`: the term is not stale, in that term the receiver has
/// voted for no one or for that candidate already, and the candidate's log
/// is at least as up to date as the receiver's.
pub open spec fn vote_granted(s: State, term: i32, candidate_id: i32, last_log_index: i32, last_log_term: i32) -> bool {
    let seen = observe_term(s, term);
    &&& term >= s.current_term
    &&& (seen.voted_for is None || seen.voted_for == Some(candidate_id))
    &&& candidate_up_to_date(s.log@, last_log_index, last_log_term)
}

/// The receiver's state after a RequestVote call: the call's term is
/// observed (see `observe_term`), and a granted vote is recorded in
/// `voted_for`.
pub open spec fn state_after_request_vote(
    s: State,
    term: i32,
    candidate_id: i32,
    last_log_index: i32,
    last_log_term: i32,
) -> State {
    let seen = observe_term(s, term);
    if vote_granted(s, term, candidate_id, last_log_index, last_log_term) {
        State { voted_for: Some(candidate_id), ..seen }
    } else {
        seen
    }
}

/// The RequestVote RPC, on the receiver's side.
///
/// The reply carries the receiver's current term, after it has observed the
/// call's term, and whether it grants the vote (see `vote_granted`); a
/// granted vote is recorded, so that no other candidate gets it in the same
/// term.
pub fn request_vote(
    node_state: &mut State,
    term: i32,
    candidate_id: i32,
    last_log_index: i32,
    last_log_term: i32,
) -> (res: (i32, bool))
    ensures
        res.1 == vote_granted(*old(node_state), term, candidate_id, last_log_index, last_log_term),
        *final(node_state) == state_after_request_vote(
            *old(node_state),
            term,
            candidate_id,
            last_log_index,
            last_log_term,
        ),
        res.0 == final(node_state).current_term,
        // a stale candidate, or one whose log is behind, is refused
        term < old(node_state).current_term ==> !res.1,
        !candidate_up_to_date(old(node_state).log@, last_log_index, last_log_term) ==> !res.1,
        // a granted vote is recorded
        res.1 ==> final(node_state).voted_for == Some(candidate_id),
        // within a term, a receiver that has voted grants no other candidate
        (term == old(node_state).current_term && old(node_state).voted_for is Some
            && old(node_state).voted_for != Some(candidate_id)) ==> !res.1,
        // the term never goes back, and is at least the latest term seen
        final(node_state).current_term >= old(node_state).current_term,
        final(node_state).current_term >= term,
        // the invariant of the state is kept
        old(node_state).wf() ==> final(node_state).wf(),
{
    let n = node_state.log.len();
    let my_last_term: i32 = if n == 0 {
        0
    } else {
        node_state.log[n - 1].1
    };
    let up_to_date = last_log_term > my_last_term || (last_log_term == my_last_term
        && last_log_index as i128 >= n as i128);

    if term > node_state.current_term {
        node_state.current_term = term;
        node_state.voted_for = None;
        node_state.node_type = FOLLOWER;
    } else if term < node_state.current_term {
        return (node_state.current_term, false);
    }

    let mut null_or_candidate_id = false;
    match node_state.voted_for {
        Some(val) => {
            if val == candidate_id {
                null_or_candidate_id = true;
            }
        },
        None => null_or_candidate_id = true,
    }

    if null_or_candidate_id && up_to_date {
        node_state.voted_for = Some(candidate_id);
        (node_state.current_term, true)
    } else {
        (node_state.current_term, false)
    }
}

} // verus!
