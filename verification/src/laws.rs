use vstd::prelude::*;

use crate::node::{
    can_begin_election, holds_majority, leader_next_index, loop_step, message_kind,
    progress_after_vote_request, state_after_begin_election, state_after_loop_step,
    state_after_message, state_after_vote_request, votes_to_exceed, ElectionProgress, MessageKind,
    APPEND_ENTRIES_MSG, INSTALL_SNAPSHOTS_MSG, REQUEST_VOTES_MSG, VOTE_MSG,
};
use crate::rpc::{
    agrees_at, append_accepted, first_new, log_after_append, state_after_append,
    state_after_request_vote, vote_granted,
};
use crate::state::{repeated, State, CANDIDATE, FOLLOWER, LEADER};
use crate::timer::{start_after_tick, state_after_tick, timed_out};
use crate::utils::{demoted_from_leader, promoted_to_leader};

verus! {

/// When the election timeout runs out without a message, the node becomes a
/// candidate, and the next turn of its main loop starts an election and
/// takes the election flag down.
pub proof fn timeout_starts_election(s: State, start: u128, max_duration: u128, now: u128, prev_node_type: i32)
    requires
        timed_out(start, max_duration, now),
        !s.reset_timer,
    ensures
        state_after_tick(s, start, max_duration, now).node_type == CANDIDATE,
        start_after_tick(s, start, max_duration, now) == now,
        loop_step(state_after_tick(s, start, max_duration, now), prev_node_type).start_election,
        !state_after_loop_step(state_after_tick(s, start, max_duration, now)).start_election,
{
}

/// A message that arrives before the election timeout runs out restarts the
/// timer: at the next turn of the timer the node keeps its role, no
/// election is asked for that was not asked for already, and the timer
/// counts again from that turn.
pub proof fn message_restarts_timer(s: State, start: u128, max_duration: u128, now: u128)
    requires
        !timed_out(start, max_duration, now),
    ensures
        ({
            let received = state_after_message(s);
            let after = state_after_tick(received, start, max_duration, now);
            &&& start_after_tick(received, start, max_duration, now) == now
            &&& after.node_type == s.node_type
            &&& after.start_election == s.start_election
            &&& !after.reset_timer
            &&& after.current_term == s.current_term
        }),
{
}

/// Whether any of a run of timer turns, at the times `times`, fires, where
/// before the turn at `times[i]` a message arrives exactly when
/// `messages[i]`, and the timer starts out at `start` with timeout
/// `max_duration`.
pub open spec fn fires_during(s: State, start: u128, max_duration: u128, times: Seq<u128>, messages: Seq<bool>) -> bool
    decreases times.len(),
{
    if times.len() == 0 || messages.len() == 0 {
        false
    } else {
        let before = if messages[0] {
            state_after_message(s)
        } else {
            s
        };
        ||| timed_out(start, max_duration, times[0])
        ||| fires_during(
            state_after_tick(before, start, max_duration, times[0]),
            start_after_tick(before, start, max_duration, times[0]),
            max_duration,
            times.drop_first(),
            messages.drop_first(),
        )
    }
}

/// A timer that (re)started at `restart` does not fire at any turn before
/// `restart + max_duration`, however many turns there are and whatever
/// messages arrive between them.
pub proof fn no_timeout_within_duration(
    s: State,
    restart: u128,
    start: u128,
    max_duration: u128,
    times: Seq<u128>,
    messages: Seq<bool>,
)
    requires
        restart <= start,
        forall|i: int| 0 <= i < times.len() ==> restart <= #[trigger] times[i] < restart + max_duration,
    ensures
        !fires_during(s, start, max_duration, times, messages),
    decreases times.len(),
{
    if times.len() > 0 && messages.len() > 0 {
        let before = if messages[0] {
            state_after_message(s)
        } else {
            s
        };
        let t = times[0];
        assert(restart <= t < restart + max_duration);
        assert(!timed_out(start, max_duration, t));
        let rest = times.drop_first();
        assert forall|i: int| 0 <= i < rest.len() implies restart <= #[trigger] rest[i] < restart
            + max_duration by {
            assert(rest[i] == times[i + 1]);
        }
        no_timeout_within_duration(
            state_after_tick(before, start, max_duration, t),
            restart,
            start_after_tick(before, start, max_duration, t),
            max_duration,
            rest,
            messages.drop_first(),
        );
    }
}

/// A follower that starts an election and wins it, with a majority of all
/// the servers, leads in the next term, and the next turn of its main loop,
/// which last saw it as a follower, starts the heartbeats.
pub proof fn winner_starts_heartbeats(s: State, vote_count: usize)
    requires
        s.wf(),
        can_begin_election(s),
        holds_majority(state_after_begin_election(s), vote_count),
    ensures
        ({
            let leader = state_after_vote_request(state_after_begin_election(s), vote_count);
            &&& leader.node_type == LEADER
            &&& leader.current_term == s.current_term + 1
            &&& leader.wf()
            &&& loop_step(leader, FOLLOWER).start_heartbeats
        }),
{
}

/// Every step of a node keeps its state well formed (see `State::wf`): a
/// timer turn, a message, the start of an election, a vote request's
/// outcome and a turn of the main loop.
pub proof fn steps_keep_state_well_formed(s: State, start: u128, max_duration: u128, now: u128, vote_count: usize)
    requires
        s.wf(),
    ensures
        state_after_tick(s, start, max_duration, now).wf(),
        state_after_message(s).wf(),
        can_begin_election(s) ==> state_after_begin_election(s).wf(),
        state_after_vote_request(s, vote_count).wf(),
        state_after_loop_step(s).wf(),
{
}

/// Within one term a node gives its vote to one candidate at most: once it
/// has granted `first` in `term`, another candidate asking in that term is
/// refused, and neither that request nor an AppendEntries call in that term
/// changes the recorded vote.
pub proof fn one_vote_per_term(
    s: State,
    term: i32,
    first: i32,
    first_last_index: i32,
    first_last_term: i32,
    second: i32,
    second_last_index: i32,
    second_last_term: i32,
    prev_log_index: usize,
    prev_log_term: i32,
    n_entries: nat,
    leader_commit: i32,
)
    requires
        vote_granted(s, term, first, first_last_index, first_last_term),
        first != second,
    ensures
        ({
            let voted = state_after_request_vote(s, term, first, first_last_index, first_last_term);
            &&& voted.current_term == term
            &&& voted.voted_for == Some(first)
            &&& !vote_granted(voted, term, second, second_last_index, second_last_term)
            &&& state_after_request_vote(voted, term, second, second_last_index, second_last_term).voted_for
                == Some(first)
            &&& state_after_append(voted, term, prev_log_index, prev_log_term, n_entries, leader_commit).voted_for
                == Some(first)
        }),
{
}

/// An AppendEntries call is accepted exactly when the leader's term is not
/// older than the receiver's, and either it follows index 0 or the
/// receiver's log has an entry at `prev_log_index` (counting from 1) whose
/// term is `prev_log_term`.
pub proof fn append_acceptance(s: State, term: i32, prev_log_index: usize, prev_log_term: i32)
    ensures
        append_accepted(s, term, prev_log_index, prev_log_term) <==> {
            &&& term >= s.current_term
            &&& (prev_log_index == 0 || (1 <= prev_log_index <= s.log@.len()
                && s.log@[prev_log_index - 1].1 == prev_log_term))
        },
{
}

/// After an accepted AppendEntries call the commit index is the larger of
/// the old one and the smaller of the leader's commit index and the index
/// of the last new entry (`prev_log_index` plus the number of entries); in
/// particular it exceeds neither the old one and the leader's, nor the old
/// one and the last new entry's index. A refused call leaves it as it was.
pub proof fn append_commit_index(
    s: State,
    term: i32,
    prev_log_index: usize,
    prev_log_term: i32,
    n_entries: nat,
    leader_commit: i32,
)
    ensures
        ({
            let after = state_after_append(s, term, prev_log_index, prev_log_term, n_entries, leader_commit);
            let last_new: int = prev_log_index + n_entries;
            let capped: int = if (leader_commit as int) < last_new {
                leader_commit as int
            } else {
                last_new
            };
            &&& append_accepted(s, term, prev_log_index, prev_log_term) ==> after.commit_index == (if capped
                > s.commit_index {
                capped
            } else {
                s.commit_index as int
            })
            &&& !append_accepted(s, term, prev_log_index, prev_log_term) ==> after.commit_index
                == s.commit_index
            &&& after.commit_index >= s.commit_index
            &&& after.commit_index <= s.commit_index || after.commit_index <= leader_commit
            &&& after.commit_index <= s.commit_index || after.commit_index <= last_new
        }),
{
}

/// An AppendEntries call leaves the receiver in the latest of the two terms;
/// in a later term it follows with no vote cast; a candidate that hears a
/// leader of its own term or later follows; nothing else but the commit
/// index changes (the log aside).
pub proof fn append_other_fields(
    s: State,
    term: i32,
    prev_log_index: usize,
    prev_log_term: i32,
    n_entries: nat,
    leader_commit: i32,
)
    ensures
        ({
            let after = state_after_append(s, term, prev_log_index, prev_log_term, n_entries, leader_commit);
            &&& after.current_term == (if term > s.current_term {
                term
            } else {
                s.current_term
            })
            &&& after.voted_for == (if term > s.current_term {
                None
            } else {
                s.voted_for
            })
            &&& after.node_type == (if term > s.current_term || (term == s.current_term && s.node_type
                == CANDIDATE) {
                FOLLOWER
            } else {
                s.node_type
            })
            &&& after.log == s.log
            &&& after.last_applied == s.last_applied
            &&& after.next_index == s.next_index
            &&& after.match_index == s.match_index
            &&& after.reset_timer == s.reset_timer
            &&& after.start_election == s.start_election
            &&& after.cluster == s.cluster
        }),
{
}

/// `first_new` from `j` lies between `j` and the number of entries; the log
/// agrees with every new entry before it, and not with the entry at it.
proof fn lemma_first_new(log: Seq<(String, i32)>, prev: int, entries: Seq<(String, i32)>, j: nat)
    requires
        j <= entries.len(),
    ensures
        j <= first_new(log, prev, entries, j) <= entries.len(),
        forall|k: int| j <= k < first_new(log, prev, entries, j) ==> agrees_at(log, prev, entries, k),
        first_new(log, prev, entries, j) < entries.len() ==> !agrees_at(
            log,
            prev,
            entries,
            first_new(log, prev, entries, j) as int,
        ),
    decreases entries.len() - j,
{
    if j < entries.len() && agrees_at(log, prev, entries, j as int) {
        lemma_first_new(log, prev, entries, j + 1);
    }
}

/// Whether `log` already holds the new entry `entries[j]`, which goes after
/// `prev` entries, with its term.
pub open spec fn holds_entry(log: Seq<(String, i32)>, prev: int, entries: Seq<(String, i32)>, j: int) -> bool {
    prev + j < log.len() && log[prev + j].1 == entries[j].1
}

/// The log after an accepted AppendEntries call whose entries follow
/// `prev_log_index`: the entries up to `prev_log_index` stay; every new entry
/// stands at its index with its term, being either the new entry itself or
/// the entry that was there already; where the log already holds every new
/// entry with its term, it is unchanged; otherwise it ends with the last new
/// entry, whatever came after it gone.
pub proof fn append_log(log: Seq<(String, i32)>, prev_log_index: usize, entries: Seq<(String, i32)>)
    requires
        prev_log_index <= log.len(),
    ensures
        ({
            let after = log_after_append(log, prev_log_index as int, entries);
            let prev = prev_log_index as int;
            &&& after.len() >= prev + entries.len()
            &&& after.take(prev) == log.take(prev)
            &&& forall|j: int| 0 <= j < entries.len() ==> #[trigger] after[prev + j].1 == entries[j].1
            &&& forall|j: int| 0 <= j < entries.len() ==> (#[trigger] after[prev + j] == entries[j]
                || after[prev + j] == log[prev + j])
            &&& (forall|j: int| 0 <= j < entries.len() ==> #[trigger] holds_entry(log, prev, entries, j)) ==> after == log
            &&& !(forall|j: int| 0 <= j < entries.len() ==> #[trigger] holds_entry(log, prev, entries, j)) ==> after.len() == prev + entries.len()
        }),
{
    let prev = prev_log_index as int;
    lemma_first_new(log, prev, entries, 0);
    let f = first_new(log, prev, entries, 0);
    let after = log_after_append(log, prev, entries);
    if f == entries.len() {
        assert(after == log);
        if entries.len() > 0 {
            assert(agrees_at(log, prev, entries, entries.len() - 1));
        }
        assert forall|j: int| 0 <= j < entries.len() implies #[trigger] after[prev + j].1 == entries[j].1
            && (after[prev + j] == entries[j] || after[prev + j] == log[prev + j]) by {
            assert(agrees_at(log, prev, entries, j));
        }
        assert forall|j: int| 0 <= j < entries.len() implies #[trigger] holds_entry(log, prev, entries, j) by {
            assert(agrees_at(log, prev, entries, j));
        }
    } else {
        assert(f < entries.len());
        let kept = log.take(prev + f);
        let added = entries.skip(f as int);
        assert(after == kept + added);
        assert(prev + f <= log.len()) by {
            if f > 0 {
                assert(agrees_at(log, prev, entries, f - 1));
            }
        }
        assert(after.len() == prev + entries.len());
        assert forall|j: int| 0 <= j < entries.len() implies #[trigger] after[prev + j].1 == entries[j].1
            && (after[prev + j] == entries[j] || after[prev + j] == log[prev + j]) by {
            if j < f {
                assert(agrees_at(log, prev, entries, j));
                assert(after[prev + j] == kept[prev + j]);
            } else {
                assert(after[prev + j] == added[j - f]);
            }
        }
        assert(!agrees_at(log, prev, entries, f as int));
        assert(!holds_entry(log, prev, entries, f as int));
        assert(after.take(prev) =~= log.take(prev));
    }
}

/// RequestVote grants the vote exactly when the candidate's term is not
/// older than the receiver's; in that term the receiver has not voted for
/// another candidate (a later term starts with no vote); and the
/// candidate's log is at least as up to date as the receiver's: its last
/// term is later than that of the receiver's last entry (0 for an empty
/// log), or the same with a last index at least the receiver's log length.
/// The receiver ends in the later of the two terms, following if the term
/// was later, and records a granted vote; nothing else changes.
pub proof fn request_vote_decision(s: State, term: i32, candidate_id: i32, last_log_index: i32, last_log_term: i32)
    ensures
        ({
            let n = s.log@.len();
            let my_last_term: int = if n == 0 {
                0
            } else {
                s.log@[n - 1].1 as int
            };
            let up_to_date = last_log_term > my_last_term || (last_log_term == my_last_term
                && last_log_index >= n);
            let free = term > s.current_term || s.voted_for is None || s.voted_for == Some(candidate_id);
            let granted = vote_granted(s, term, candidate_id, last_log_index, last_log_term);
            let after = state_after_request_vote(s, term, candidate_id, last_log_index, last_log_term);
            &&& granted <==> (term >= s.current_term && free && up_to_date)
            &&& after.current_term == (if term > s.current_term {
                term
            } else {
                s.current_term
            })
            &&& after.voted_for == (if granted {
                Some(candidate_id)
            } else if term > s.current_term {
                None
            } else {
                s.voted_for
            })
            &&& after.node_type == (if term > s.current_term {
                FOLLOWER
            } else {
                s.node_type
            })
            &&& after.log == s.log
            &&& after.commit_index == s.commit_index
            &&& after.start_election == s.start_election
            &&& after.reset_timer == s.reset_timer
        }),
{
}

/// Starting an election makes the node a candidate one term later and
/// restarts the timer, changing nothing else; the number of votes to exceed
/// is the largest that is not more than half of all the servers (the
/// cluster and this node).
pub proof fn election_start(s: State, vote_count: nat)
    ensures
        ({
            let after = state_after_begin_election(s);
            &&& can_begin_election(s) ==> after.current_term == s.current_term + 1
            &&& after.node_type == CANDIDATE
            &&& after.reset_timer
            &&& after.voted_for == s.voted_for
            &&& after.log == s.log
            &&& after.commit_index == s.commit_index
            &&& after.start_election == s.start_election
            &&& after.cluster == s.cluster
            &&& (vote_count > votes_to_exceed(s.cluster@.len()) <==> 2 * vote_count > s.cluster@.len() + 1)
        }),
{
}

/// After a vote request, a candidate has won exactly when its votes are more
/// than half of all the servers (the cluster and this node): it then leads,
/// and for each server its next index is its log length plus one. Short of
/// that it gives up exactly when it is a follower again, and nothing of its
/// state changes.
pub proof fn vote_request_outcome(s: State, vote_count: usize)
    requires
        s.log@.len() < i32::MAX,
    ensures
        ({
            let won = 2 * vote_count > s.cluster@.len() + 1;
            let progress = progress_after_vote_request(s, vote_count);
            let after = state_after_vote_request(s, vote_count);
            &&& (progress == ElectionProgress::Won) <==> won
            &&& (progress == ElectionProgress::Abandoned) <==> (!won && s.node_type == FOLLOWER)
            &&& (progress == ElectionProgress::Continuing) <==> (!won && s.node_type != FOLLOWER)
            &&& holds_majority(s, vote_count) <==> won
            &&& won ==> after.node_type == LEADER
            &&& !won ==> after == s
            &&& after.current_term == s.current_term
            &&& after.log == s.log
            &&& leader_next_index(s).len() == s.cluster@.len()
            &&& forall|i: int| 0 <= i < s.cluster@.len() ==> #[trigger] leader_next_index(s)[i] == s.log@.len() + 1
        }),
{
}

/// A turn of the main loop asks for an election exactly when the election
/// flag is up, and takes it down; it asks for heartbeats exactly when the
/// node leads now and followed at the previous turn; it reports the
/// node's role; and it changes nothing else.
pub proof fn main_loop_turn(s: State, prev_node_type: i32)
    ensures
        ({
            let step = loop_step(s, prev_node_type);
            let after = state_after_loop_step(s);
            &&& step.start_election == s.start_election
            &&& step.start_heartbeats <==> (s.node_type == LEADER && prev_node_type == FOLLOWER)
            &&& step.node_type == s.node_type
            &&& !after.start_election
            &&& after.node_type == s.node_type
            &&& after.current_term == s.current_term
            &&& after.reset_timer == s.reset_timer
            &&& after.voted_for == s.voted_for
            &&& after.log == s.log
        }),
{
}

/// A promotion is a move from follower to leader, a demotion a move from
/// leader to follower or candidate.
pub proof fn role_transitions(current_node_type: i32, prev_node_type: i32)
    ensures
        promoted_to_leader(current_node_type, prev_node_type) <==> (current_node_type == LEADER
            && prev_node_type == FOLLOWER),
        demoted_from_leader(current_node_type, prev_node_type) <==> ((current_node_type == FOLLOWER
            || current_node_type == CANDIDATE) && prev_node_type == LEADER),
{
}

/// A turn of the timer fires exactly when at least `max_duration` ms have
/// passed since `start` (a clock reading before `start` counts as none); it
/// never lowers the election flag and raises it when it fires; the node
/// becomes a candidate when it fires and keeps its role otherwise; the
/// message flag goes down; the timer restarts at `now` when it fires or a
/// message came, and otherwise keeps counting; nothing else changes.
pub proof fn timer_turn(s: State, start: u128, max_duration: u128, now: u128)
    ensures
        ({
            let fired = timed_out(start, max_duration, now);
            let after = state_after_tick(s, start, max_duration, now);
            &&& fired <==> ((now >= start && now - start >= max_duration) || (now < start && max_duration
                == 0))
            &&& s.start_election ==> after.start_election
            &&& fired ==> after.start_election
            &&& !fired ==> after.start_election == s.start_election
            &&& after.node_type == (if fired {
                CANDIDATE
            } else {
                s.node_type
            })
            &&& !after.reset_timer
            &&& start_after_tick(s, start, max_duration, now) == (if fired || s.reset_timer {
                now
            } else {
                start
            })
            &&& after.current_term == s.current_term
            &&& after.voted_for == s.voted_for
            &&& after.log == s.log
            &&& after.commit_index == s.commit_index
        }),
{
}

/// A received message raises the message flag and changes nothing else.
pub proof fn message_received(s: State)
    ensures
        ({
            let after = state_after_message(s);
            &&& after.reset_timer
            &&& after.node_type == s.node_type
            &&& after.start_election == s.start_election
            &&& after.current_term == s.current_term
            &&& after.voted_for == s.voted_for
            &&& after.log == s.log
            &&& after.commit_index == s.commit_index
        }),
{
}

/// Each of the four call texts is told apart as its own kind.
pub proof fn message_texts_classified()
    ensures
        message_kind(APPEND_ENTRIES_MSG@) == MessageKind::AppendEntries,
        message_kind(REQUEST_VOTES_MSG@) == MessageKind::RequestVote,
        message_kind(INSTALL_SNAPSHOTS_MSG@) == MessageKind::InstallSnapshot,
        message_kind(VOTE_MSG@) == MessageKind::Vote,
{
    reveal_strlit("Append Entries\n");
    reveal_strlit("Request Votes\n");
    reveal_strlit("Install Snapshot\n");
    reveal_strlit("Vote\n");
    assert(APPEND_ENTRIES_MSG@.len() == 15);
    assert(REQUEST_VOTES_MSG@.len() == 14);
    assert(INSTALL_SNAPSHOTS_MSG@.len() == 17);
    assert(VOTE_MSG@.len() == 5);
}

/// Any text other than the four call texts, a heartbeat among them, is of
/// no kind that a node handles.
pub proof fn other_texts_unclassified(msg: Seq<char>)
    requires
        msg != APPEND_ENTRIES_MSG@,
        msg != REQUEST_VOTES_MSG@,
        msg != INSTALL_SNAPSHOTS_MSG@,
        msg != VOTE_MSG@,
    ensures
        message_kind(msg) == MessageKind::Other,
{
}

/// `repeated(n, value)` holds `n` elements, each of them `value`.
pub proof fn repeated_elements(n: nat, value: i32)
    ensures
        repeated(n, value).len() == n,
        forall|i: int| 0 <= i < n ==> #[trigger] repeated(n, value)[i] == value,
{
}

} // verus!
