use raft::node::{
    after_vote_request, begin_election, classify_message, election_won, main_loop_step, majority_threshold,
    on_message_received, parse_args, ElectionProgress, Incoming, MessageKind, APPEND_ENTRIES_MSG,
    HEARTBEAT_MSG, INSTALL_SNAPSHOTS_MSG, REQUEST_VOTES_MSG, VOTE_MSG,
};
use raft::rpc::{append_entries, install_snapshots, request_vote};
use raft::state::{State, CANDIDATE, FOLLOWER, LEADER};
use raft::timer::{Timer, MAX_TIMEOUT_MS, MIN_TIMEOUT_MS};
use raft::utils::{
    node_demoted_from_leader, node_promoted_to_leader, node_still_candidate, node_still_leader,
};

fn fresh() -> State {
    State::new(vec!["127.0.0.1:2000".to_string()], "127.0.0.1:1000".to_string())
}

fn with_log(terms: &[i32]) -> State {
    let mut s = fresh();
    for t in terms {
        s.log.push((format!("cmd{}", t), *t));
    }
    s
}

#[test]
fn new_state_is_a_fresh_follower() {
    let s = fresh();
    assert_eq!(s.current_term, 0);
    assert_eq!(s.voted_for, None);
    assert!(s.log.is_empty());
    assert_eq!(s.commit_index, 0);
    assert_eq!(s.last_applied, 0);
    assert_eq!(s.next_index, vec![1]);
    assert_eq!(s.match_index, vec![0]);
    let three = State::new(vec!["a".into(), "b".into(), "c".into()], "me".into());
    assert_eq!(three.next_index, vec![1, 1, 1]);
    assert_eq!(three.match_index, vec![0, 0, 0]);
    assert_eq!(s.node_type, FOLLOWER);
    assert!(!s.reset_timer && !s.start_election && !s.propagate_message_in_heartbeat);
    assert_eq!(s.vote_count, 0);
    assert_eq!(s.cluster, vec!["127.0.0.1:2000".to_string()]);
    assert_eq!(s.my_networking_info, "127.0.0.1:1000");
    assert_eq!(s.leader, "");
}

fn entry(cmd: &str, term: i32) -> (String, i32) {
    (cmd.to_string(), term)
}

fn log_terms(s: &State) -> Vec<i32> {
    s.log.iter().map(|e| e.1).collect()
}

#[test]
fn append_entries_refuses_stale_term() {
    let mut s = with_log(&[1, 2]);
    s.current_term = 5;
    s.commit_index = 1;
    let r = append_entries(&mut s, 4, 7, 1, 1, vec![entry("x", 4)], 9);
    assert_eq!(r, (5, false));
    assert_eq!(s.commit_index, 1);
    assert_eq!(log_terms(&s), vec![1, 2]);
}

#[test]
fn append_entries_refuses_log_mismatch() {
    let mut s = with_log(&[1, 2]);
    s.current_term = 2;
    // the entry at index 2 has term 2, not 1
    let r = append_entries(&mut s, 2, 7, 2, 1, vec![entry("x", 2)], 9);
    assert_eq!(r, (2, false));
    assert_eq!(log_terms(&s), vec![1, 2]);
    // index 3 is past the end of the log
    let r = append_entries(&mut s, 2, 7, 3, 2, vec![], 9);
    assert_eq!(r, (2, false));
    assert_eq!(s.commit_index, 0);
}

#[test]
fn append_entries_fills_empty_log() {
    let mut s = fresh();
    let r = append_entries(&mut s, 1, 7, 0, 0, vec![entry("a", 1), entry("b", 1)], 1);
    assert_eq!(r, (1, true));
    assert_eq!(s.log, vec![entry("a", 1), entry("b", 1)]);
    assert_eq!(s.commit_index, 1);
}

#[test]
fn append_entries_appends_after_prev() {
    let mut s = with_log(&[1, 1, 1]);
    s.current_term = 1;
    let r = append_entries(&mut s, 1, 7, 3, 1, vec![entry("d", 1), entry("e", 1)], 10);
    assert_eq!(r, (1, true));
    assert_eq!(log_terms(&s), vec![1, 1, 1, 1, 1]);
    assert_eq!(s.log[3].0, "d");
    // the commit index stops at the last new entry
    assert_eq!(s.commit_index, 5);
}

#[test]
fn append_entries_replaces_conflicting_entries() {
    let mut s = with_log(&[1, 1, 2, 2]);
    s.current_term = 3;
    // index 2 matches; index 3 conflicts (2 against 3), so it and index 4 go
    let r = append_entries(&mut s, 3, 7, 1, 1, vec![entry("same", 1), entry("new", 3)], 0);
    assert_eq!(r, (3, true));
    assert_eq!(log_terms(&s), vec![1, 1, 3]);
    assert_eq!(s.log[1].0, "cmd1");
    assert_eq!(s.log[2].0, "new");
}

#[test]
fn append_entries_keeps_longer_matching_log() {
    let mut s = with_log(&[1, 1, 1, 1]);
    s.current_term = 1;
    let r = append_entries(&mut s, 1, 7, 1, 1, vec![entry("x", 1)], 0);
    assert_eq!(r, (1, true));
    assert_eq!(log_terms(&s), vec![1, 1, 1, 1]);
    assert_eq!(s.log[1].0, "cmd1");
}

#[test]
fn append_entries_commits_up_to_leader_commit() {
    let mut s = with_log(&[1, 1]);
    let r = append_entries(&mut s, 1, 7, 2, 1, vec![entry("c", 1), entry("d", 1)], 3);
    assert_eq!(r, (1, true));
    assert_eq!(s.current_term, 1);
    assert_eq!(s.commit_index, 3);
}

#[test]
fn append_entries_keeps_commit_when_leader_is_behind() {
    let mut s = with_log(&[1, 1, 1, 1, 1, 1, 1]);
    s.commit_index = 6;
    let r = append_entries(&mut s, 0, 7, 1, 1, vec![], 6);
    assert_eq!(r, (0, true));
    assert_eq!(s.commit_index, 6);
}

#[test]
fn append_entries_never_lowers_commit() {
    let mut s = with_log(&[1, 1, 1, 1, 1]);
    s.commit_index = 5;
    let r = append_entries(&mut s, 0, 7, 1, 1, vec![], 10);
    assert_eq!(r, (0, true));
    assert_eq!(s.commit_index, 5);
    assert_eq!(s.log.len(), 5);
}

#[test]
fn append_entries_adopts_later_term() {
    let mut s = with_log(&[1, 2]);
    s.current_term = 2;
    s.voted_for = Some(4);
    s.node_type = LEADER;
    // a later term is adopted, and the node follows, even when the log does not match
    let r = append_entries(&mut s, 5, 7, 2, 3, vec![], 0);
    assert_eq!(r, (5, false));
    assert_eq!(s.current_term, 5);
    assert_eq!(s.voted_for, None);
    assert_eq!(s.node_type, FOLLOWER);
    assert_eq!(s.commit_index, 0);
}

#[test]
fn candidate_hearing_leader_follows() {
    let mut s = with_log(&[1]);
    s.current_term = 2;
    s.node_type = CANDIDATE;
    let r = append_entries(&mut s, 2, 7, 1, 1, vec![], 0);
    assert_eq!(r, (2, true));
    assert_eq!(s.node_type, FOLLOWER);
}

#[test]
fn install_snapshots_reports_one() {
    assert_eq!(install_snapshots(3, 1, 4, 2, 0, vec![1, 2, 3], true), 1);
}

#[test]
fn request_vote_cases() {
    let mut s = fresh();
    s.current_term = 3;
    assert_eq!(request_vote(&mut s, 2, 9, 0, 0), (3, false));
    assert_eq!(s.voted_for, None);
    assert_eq!(request_vote(&mut s, 3, 9, 0, 0), (3, true));
    assert_eq!(s.voted_for, Some(9));
    assert_eq!(request_vote(&mut s, 3, 9, 0, 0), (3, true));
    assert_eq!(request_vote(&mut s, 3, 8, 0, 0), (3, false));
    assert_eq!(s.voted_for, Some(9));
    // a later term starts with no vote cast
    s.node_type = CANDIDATE;
    assert_eq!(request_vote(&mut s, 4, 8, 0, 0), (4, true));
    assert_eq!(s.current_term, 4);
    assert_eq!(s.voted_for, Some(8));
    assert_eq!(s.node_type, FOLLOWER);
}

#[test]
fn request_vote_needs_up_to_date_log() {
    let mut s = with_log(&[1, 2, 2]);
    s.current_term = 3;
    // older last term
    assert_eq!(request_vote(&mut s, 3, 9, 5, 1), (3, false));
    // same last term, shorter log
    assert_eq!(request_vote(&mut s, 3, 9, 2, 2), (3, false));
    assert_eq!(s.voted_for, None);
    // same last term, as long
    assert_eq!(request_vote(&mut s, 3, 9, 3, 2), (3, true));
    let mut t = with_log(&[1, 2, 2]);
    t.current_term = 3;
    // later last term, shorter log
    assert_eq!(request_vote(&mut t, 3, 8, 1, 3), (3, true));
}

#[test]
fn one_vote_per_term_on_fresh_node() {
    let mut s = fresh();
    assert_eq!(request_vote(&mut s, 0, 5, 0, 0), (0, true));
    assert_eq!(request_vote(&mut s, 0, 6, 0, 0), (0, false));
    assert_eq!(s.voted_for, Some(5));
}

#[test]
fn role_transitions() {
    assert!(node_promoted_to_leader(LEADER, FOLLOWER));
    assert!(!node_promoted_to_leader(LEADER, CANDIDATE));
    assert!(!node_promoted_to_leader(CANDIDATE, FOLLOWER));
    assert!(node_demoted_from_leader(FOLLOWER, LEADER));
    assert!(node_demoted_from_leader(CANDIDATE, LEADER));
    assert!(!node_demoted_from_leader(LEADER, LEADER));
    assert!(!node_demoted_from_leader(FOLLOWER, CANDIDATE));
    for cur in 0..5 {
        for prev in 0..5 {
            assert!(!(node_promoted_to_leader(cur, prev) && node_demoted_from_leader(cur, prev)));
        }
    }
}

#[test]
fn still_candidate_and_still_leader() {
    let mut s = fresh();
    assert!(!node_still_candidate(&s));
    assert!(!node_still_leader(&s));
    s.node_type = CANDIDATE;
    assert!(node_still_candidate(&s));
    s.node_type = LEADER;
    assert!(node_still_leader(&s));
}

#[test]
fn timer_new_draws_timeout_in_range() {
    let mut seen = std::collections::BTreeSet::new();
    for _ in 0..200 {
        let t = Timer::new(42);
        assert_eq!(t.start, 42);
        assert!(t.max_duration >= MIN_TIMEOUT_MS as u128);
        assert!(t.max_duration < MAX_TIMEOUT_MS as u128);
        seen.insert(t.max_duration);
    }
    // the timeouts are drawn, not fixed at a bound of the range
    assert!(seen.len() > 1);
}

#[test]
fn timer_fires_after_timeout() {
    let mut s = fresh();
    let mut t = Timer::from_duration(100, 50);
    assert!(!t.tick(&mut s, 149));
    assert_eq!(s.node_type, FOLLOWER);
    assert!(!s.start_election);
    assert_eq!(t.start, 100);
    assert!(t.tick(&mut s, 150));
    assert_eq!(s.node_type, CANDIDATE);
    assert!(s.start_election);
    assert_eq!(t.start, 150);
}

#[test]
fn timer_restarts_on_message() {
    let mut s = fresh();
    let mut t = Timer::from_duration(100, 50);
    s.reset_timer = true;
    assert!(!t.tick(&mut s, 130));
    assert_eq!(t.start, 130);
    assert!(!s.reset_timer);
    assert!(!t.tick(&mut s, 170));
    assert_eq!(s.node_type, FOLLOWER);
}

#[test]
fn timer_earlier_clock_counts_as_no_time() {
    let mut s = fresh();
    let mut t = Timer::from_duration(100, 0);
    assert!(t.tick(&mut s, 10));
    assert_eq!(t.start, 10);
}

#[test]
fn classify_messages() {
    assert_eq!(classify_message(&APPEND_ENTRIES_MSG.to_string()), MessageKind::AppendEntries);
    assert_eq!(classify_message(&REQUEST_VOTES_MSG.to_string()), MessageKind::RequestVote);
    assert_eq!(classify_message(&INSTALL_SNAPSHOTS_MSG.to_string()), MessageKind::InstallSnapshot);
    assert_eq!(classify_message(&VOTE_MSG.to_string()), MessageKind::Vote);
    assert_eq!(classify_message(&HEARTBEAT_MSG.to_string()), MessageKind::Other);
    assert_eq!(classify_message(&"Vote".to_string()), MessageKind::Other);
}

#[test]
fn message_received_restarts_timer_and_dispatches() {
    let mut s = fresh();
    let a = on_message_received(&mut s, &"Request Votes\n".to_string());
    assert_eq!(a, Incoming::Rpc(MessageKind::RequestVote));
    assert!(s.reset_timer);
    s.node_type = LEADER;
    s.reset_timer = false;
    let a = on_message_received(&mut s, &"Request Votes\n".to_string());
    assert_eq!(a, Incoming::ClientCommand);
    assert!(s.reset_timer);
}

#[test]
fn election_begins_as_candidate_in_next_term() {
    let mut s = State::new(
        vec!["a".to_string(), "b".to_string(), "c".to_string(), "d".to_string()],
        "me".to_string(),
    );
    s.current_term = 3;
    // five servers: a winner needs more than two votes
    let threshold = begin_election(&mut s);
    assert_eq!(threshold, 2);
    assert_eq!(s.node_type, CANDIDATE);
    assert_eq!(s.current_term, 4);
    assert!(s.reset_timer);
    let mut z = fresh();
    // two servers: a winner needs both votes
    assert_eq!(begin_election(&mut z), 1);
    assert_eq!(z.current_term, 1);
}

#[test]
fn majority_thresholds() {
    assert_eq!(majority_threshold(0), 0);
    assert_eq!(majority_threshold(1), 1);
    assert_eq!(majority_threshold(2), 1);
    assert_eq!(majority_threshold(3), 2);
    assert_eq!(majority_threshold(4), 2);
}

#[test]
fn election_outcomes() {
    assert!(election_won(3, 2));
    assert!(!election_won(2, 2));
    let mut s = fresh();
    s.node_type = CANDIDATE;
    // one other server: one vote is not a majority of two
    assert_eq!(after_vote_request(&mut s, 1), ElectionProgress::Continuing);
    assert_eq!(s.node_type, CANDIDATE);
    s.log.push(("a".to_string(), 1));
    s.log.push(("b".to_string(), 1));
    s.next_index = vec![7];
    s.match_index = vec![7];
    assert_eq!(after_vote_request(&mut s, 2), ElectionProgress::Won);
    assert_eq!(s.node_type, LEADER);
    assert_eq!(s.next_index, vec![3]);
    assert_eq!(s.match_index, vec![0]);
    let mut f = fresh();
    assert_eq!(after_vote_request(&mut f, 1), ElectionProgress::Abandoned);
    assert_eq!(f.node_type, FOLLOWER);
}

#[test]
fn main_loop_turns() {
    let mut s = fresh();
    s.start_election = true;
    let step = main_loop_step(&mut s, FOLLOWER);
    assert!(step.start_election);
    assert!(!step.start_heartbeats);
    assert_eq!(step.node_type, FOLLOWER);
    assert!(!s.start_election);
    s.node_type = LEADER;
    let step = main_loop_step(&mut s, FOLLOWER);
    assert!(!step.start_election);
    assert!(step.start_heartbeats);
    let step = main_loop_step(&mut s, step.node_type);
    assert!(!step.start_heartbeats);
}

#[test]
fn parse_args_needs_exactly_two_addresses() {
    let args: Vec<String> = vec!["raft".into(), "127.0.0.1:1000".into(), "127.0.0.1:2000".into()];
    let (cluster, me) = parse_args(&args).unwrap();
    assert_eq!(cluster, vec!["127.0.0.1:2000".to_string()]);
    assert_eq!(me, "127.0.0.1:1000");
    assert!(parse_args(&vec!["raft".to_string()]).is_none());
    let four: Vec<String> = vec!["raft".into(), "a".into(), "b".into(), "c".into()];
    assert!(parse_args(&four).is_none());
}

#[test]
fn timeout_then_loop_starts_election() {
    let mut s = fresh();
    let mut t = Timer::from_duration(0, 10);
    assert!(t.tick(&mut s, 20));
    let step = main_loop_step(&mut s, FOLLOWER);
    assert!(step.start_election);
    assert_eq!(step.node_type, CANDIDATE);
    assert!(!s.start_election);
}

#[test]
fn winner_seen_from_follower_starts_heartbeats() {
    let mut s = fresh();
    begin_election(&mut s);
    assert_eq!(after_vote_request(&mut s, 1), ElectionProgress::Continuing);
    assert_eq!(after_vote_request(&mut s, 2), ElectionProgress::Won);
    let step = main_loop_step(&mut s, FOLLOWER);
    assert!(step.start_heartbeats);
    // a loop that saw the candidate first does not start them
    let step = main_loop_step(&mut s, CANDIDATE);
    assert!(!step.start_heartbeats);
}
