use galion::jobs::{job_line, JobColor, JobState, JobStatus, JobsList, SyncJobData};
use galion::order::{rank_bytes, rank_text, Rank};

fn job(job_id: u64, name: &str, src: &str, dest: &str) -> SyncJobData {
    SyncJobData { job_id, name: name.to_string(), src: src.to_string(), dest: dest.to_string() }
}

fn status(success: bool, duration: &str, error: &str) -> JobStatus {
    JobStatus {
        success,
        duration: duration.to_string(),
        error: error.to_string(),
        start_time: "2024-05-01T10:00:00Z".to_string(),
        debug_str: None,
    }
}

fn ids(list: &JobsList) -> Vec<u64> {
    (0..list.len()).map(|i| list.key_at(i).job_id).collect()
}

#[test]
fn strings_are_ordered_byte_by_byte() {
    assert_eq!(rank_text("abc", "abd"), Rank::Before);
    assert_eq!(rank_text("abd", "abc"), Rank::After);
    assert_eq!(rank_text("abc", "abc"), Rank::Same);
    assert_eq!(rank_text("ab", "abc"), Rank::Before);
    assert_eq!(rank_text("", ""), Rank::Same);
    assert_eq!(rank_text("z", "é"), Rank::Before);
    assert_eq!(rank_bytes(&[1, 2], &[1]), Rank::After);
    for (a, b) in [("", "a"), ("a", "b"), ("é", "€"), ("same", "same"), ("b", "ab")] {
        let expected = match a.cmp(b) {
            std::cmp::Ordering::Less => Rank::Before,
            std::cmp::Ordering::Equal => Rank::Same,
            std::cmp::Ordering::Greater => Rank::After,
        };
        assert_eq!(rank_text(a, b), expected);
    }
}

#[test]
fn identities_are_ordered_by_id_then_fields() {
    assert_eq!(job(1, "z", "z", "z").rank(&job(2, "a", "a", "a")), Rank::Before);
    assert_eq!(job(2, "a", "z", "z").rank(&job(2, "b", "a", "a")), Rank::Before);
    assert_eq!(job(2, "a", "b", "a").rank(&job(2, "a", "a", "z")), Rank::After);
    assert_eq!(job(2, "a", "a", "a").rank(&job(2, "a", "a", "b")), Rank::Before);
    assert_eq!(job(2, "a", "a", "a").rank(&job(2, "a", "a", "a")), Rank::Same);
    assert_eq!(job(0, "n", "s", "d").with_job_id(9), job(9, "n", "s", "d"));
}

#[test]
fn insert_keeps_the_list_sorted_and_replaces_equal_identities() {
    let mut list = JobsList::new();
    assert!(list.is_empty());
    list.insert(job(5, "e", "s", "d"), JobState::Sent);
    list.insert(job(2, "b", "s", "d"), JobState::Sent);
    list.insert(job(9, "i", "s", "d"), JobState::Sent);
    list.insert(job(5, "a", "s", "d"), JobState::Sent);
    assert_eq!(ids(&list), vec![2, 5, 5, 9]);
    assert_eq!(list.key_at(1).name, "a");
    assert_eq!(list.key_at(2).name, "e");
    list.insert(job(5, "e", "s", "d"), JobState::Done(status(true, "1", "")));
    assert_eq!(list.len(), 4);
    assert_eq!(list.state_at(2), &JobState::Done(status(true, "1", "")));
    assert_eq!(list.state_at(1), &JobState::Sent);
    let copy = list.clone();
    assert_eq!(copy, list);
    assert!(list.get(4).is_none());
    let (key, state) = list.get(0).unwrap();
    assert_eq!(key.job_id, 2);
    assert_eq!(state, &JobState::Sent);
}

#[test]
fn waiting_jobs_are_found_in_order() {
    let mut list = JobsList::new();
    assert!(!list.any_waiting());
    assert_eq!(list.next_waiting(0), 0);
    list.insert(job(1, "a", "s", "d"), JobState::Done(status(true, "1", "")));
    list.insert(job(2, "b", "s", "d"), JobState::Pending(status(false, "1", "")));
    list.insert(job(3, "c", "s", "d"), JobState::Done(status(false, "1", "x")));
    list.insert(job(4, "d", "s", "d"), JobState::Sent);
    assert!(list.any_waiting());
    assert_eq!(list.next_waiting(0), 1);
    assert_eq!(list.next_waiting(1), 1);
    assert_eq!(list.next_waiting(2), 3);
    assert_eq!(list.next_waiting(4), 4);
    assert_eq!(list.next_waiting(17), 4);
    list.set_state(1, JobState::Done(status(true, "2", "")));
    list.set_state(3, JobState::Done(status(true, "2", "")));
    assert!(!list.any_waiting());
    assert_eq!(ids(&list), vec![1, 2, 3, 4]);
}

#[test]
fn states_have_their_texts_and_colours() {
    let fine = status(true, "12.5", "");
    let failed = status(false, "3", "disk full");
    assert_eq!(fine.to_string(), "success: true, duration: 12.5");
    assert_eq!(failed.to_string(), "success: false (disk full), duration: 3");
    assert_eq!(JobState::Sent.to_string(), "sent");
    assert_eq!(
        JobState::Pending(fine.clone()).to_string(),
        "waiting: start_time: 2024-05-01T10:00:00Z"
    );
    assert_eq!(JobState::Done(fine.clone()).to_string(), "done: success: true, duration: 12.5");
    assert_eq!(JobState::Sent.success_color(), JobColor::Blue);
    assert_eq!(JobState::Pending(failed.clone()).success_color(), JobColor::Blue);
    assert_eq!(JobState::Done(fine.clone()).success_color(), JobColor::Green);
    assert_eq!(JobState::Done(failed.clone()).success_color(), JobColor::Red);
    assert!(JobState::Sent.is_waiting());
    assert!(JobState::Pending(fine.clone()).is_waiting());
    assert!(!JobState::Done(fine.clone()).is_waiting());
    assert_eq!(JobState::Done(fine.clone()).clone(), JobState::Done(fine));
}

#[test]
fn a_job_is_listed_with_name_id_and_state() {
    let line = job_line(&job(7, "backup", "/data", "remote:bucket"), &JobState::Sent);
    assert_eq!(line, "job backup (7): sent\n");
}
