use std::cell::RefCell;
use std::collections::BTreeSet;

use png_squeeze::encoder::{CompressionOutcome, FailureReason};
use png_squeeze::pool::{drain, drain_on_physical_cores, worker_count};
use png_squeeze::queue::WorkQueue;
use png_squeeze::worker::{Action, PathOutcome, Worker};

fn names(count: usize) -> Vec<String> {
    (0..count).map(|i| format!("img{}.png", i)).collect()
}

fn fails_on_odd(path: &String) -> CompressionOutcome {
    let digit = path.as_bytes()[path.len() - 5];
    if digit % 2 == 1 {
        CompressionOutcome::EncoderFailure(FailureReason::NonZeroExit(1))
    } else {
        CompressionOutcome::Success
    }
}

fn successes(report: &[PathOutcome]) -> BTreeSet<String> {
    report.iter().filter(|r| r.outcome.is_success()).map(|r| r.path.clone()).collect()
}

#[test]
fn queue_hands_out_each_entry_once() {
    let mut queue = WorkQueue::new(names(3));
    assert_eq!(queue.len(), 3);
    assert!(!queue.is_empty());
    assert_eq!(queue.claim(), Some(String::from("img2.png")));
    assert_eq!(queue.len(), 2);
    assert_eq!(queue.claim(), Some(String::from("img1.png")));
    assert_eq!(queue.claim(), Some(String::from("img0.png")));
    assert!(queue.is_empty());
    assert_eq!(queue.len(), 0);
    assert_eq!(queue.claim(), None);
    assert_eq!(queue.claim(), None);
    assert!(queue.is_empty());
}

#[test]
fn empty_queue_is_empty() {
    let mut queue = WorkQueue::new(Vec::new());
    assert!(queue.is_empty());
    assert_eq!(queue.len(), 0);
    assert_eq!(queue.claim(), None);
}

#[test]
fn worker_walks_through_its_states() {
    let mut queue = WorkQueue::new(names(1));
    let mut worker = Worker::new();
    assert!(worker.is_running());
    assert!(!worker.is_invoking() && !worker.is_terminated());
    match worker.claim(&mut queue) {
        Action::Invoke(path) => assert_eq!(path, "img0.png"),
        Action::Exit => panic!("the queue held a path"),
    }
    assert!(worker.is_invoking());
    assert!(queue.is_empty());
    let record = worker.complete(CompressionOutcome::Success);
    assert_eq!(record.path, "img0.png");
    assert_eq!(record.outcome, CompressionOutcome::Success);
    assert!(worker.is_running());
    assert!(matches!(worker.claim(&mut queue), Action::Exit));
    assert!(worker.is_terminated());
    assert!(!worker.is_running() && !worker.is_invoking());
}

#[test]
fn worker_records_a_failure_and_goes_on() {
    let mut queue = WorkQueue::new(names(2));
    let mut worker = Worker::new();
    assert!(matches!(worker.claim(&mut queue), Action::Invoke(_)));
    let failure = CompressionOutcome::EncoderFailure(FailureReason::SpawnFailed);
    let record = worker.complete(failure);
    assert_eq!(record.path, "img1.png");
    assert_eq!(record.outcome, failure);
    assert!(worker.is_running());
    assert_eq!(queue.len(), 1);
    match worker.claim(&mut queue) {
        Action::Invoke(path) => assert_eq!(path, "img0.png"),
        Action::Exit => panic!("one path was left"),
    }
}

#[test]
fn interleaved_workers_share_the_queue() {
    let mut queue = WorkQueue::new(names(3));
    let mut first = Worker::new();
    let mut second = Worker::new();
    let mut seen: Vec<String> = Vec::new();
    assert!(matches!(first.claim(&mut queue), Action::Invoke(_)));
    assert!(matches!(second.claim(&mut queue), Action::Invoke(_)));
    assert!(first.is_invoking() && second.is_invoking());
    assert_eq!(queue.len(), 1);
    seen.push(second.complete(CompressionOutcome::Success).path);
    assert!(matches!(second.claim(&mut queue), Action::Invoke(_)));
    assert!(queue.is_empty());
    seen.push(first.complete(CompressionOutcome::Success).path);
    assert!(matches!(first.claim(&mut queue), Action::Exit));
    assert!(first.is_terminated());
    seen.push(second.complete(CompressionOutcome::Success).path);
    assert!(matches!(second.claim(&mut queue), Action::Exit));
    assert!(second.is_terminated());
    seen.sort();
    assert_eq!(seen, names(3));
}

#[test]
fn drain_invokes_the_encoder_once_per_path() {
    for n_workers in [1usize, 2, 3, 8, 100] {
        for count in [0usize, 1, 2, 7, 8, 9, 25] {
            let calls = RefCell::new(Vec::new());
            let encode = |path: &String| {
                calls.borrow_mut().push(path.clone());
                CompressionOutcome::Success
            };
            let mut queue = WorkQueue::new(names(count));
            let report = drain(&mut queue, n_workers, &encode);
            assert_eq!(calls.borrow().len(), count);
            assert_eq!(report.len(), count);
            let mut sorted = calls.borrow().clone();
            sorted.sort();
            let mut expected = names(count);
            expected.sort();
            assert_eq!(sorted, expected);
        }
    }
}

#[test]
fn drain_leaves_the_queue_empty() {
    for n_workers in [1usize, 2, 8] {
        let mut queue = WorkQueue::new(names(5));
        let encode = |_path: &String| CompressionOutcome::Success;
        drain(&mut queue, n_workers, &encode);
        assert!(queue.is_empty());
        assert_eq!(queue.len(), 0);
        assert_eq!(queue.claim(), None);
    }
}

#[test]
fn drain_reports_in_order_of_invocation() {
    let calls = RefCell::new(Vec::new());
    let encode = |path: &String| {
        calls.borrow_mut().push(path.clone());
        fails_on_odd(path)
    };
    let mut queue = WorkQueue::new(names(4));
    let report = drain(&mut queue, 3, &encode);
    let listed: Vec<String> = report.iter().map(|r| r.path.clone()).collect();
    assert_eq!(listed, vec!["img3.png", "img2.png", "img1.png", "img0.png"]);
    assert_eq!(listed, *calls.borrow());
    let failed = CompressionOutcome::EncoderFailure(FailureReason::NonZeroExit(1));
    let outcomes: Vec<CompressionOutcome> = report.iter().map(|r| r.outcome).collect();
    assert_eq!(outcomes, vec![failed, CompressionOutcome::Success, failed, CompressionOutcome::Success]);
}

#[test]
fn failure_stops_nothing() {
    let encode = |_path: &String| CompressionOutcome::EncoderFailure(FailureReason::SpawnFailed);
    let mut queue = WorkQueue::new(names(6));
    let report = drain(&mut queue, 2, &encode);
    assert_eq!(report.len(), 6);
    assert!(queue.is_empty());
    assert!(report.iter().all(|r| !r.outcome.is_success()));
}

#[test]
fn worker_count_does_not_change_what_is_recompressed() {
    let mut queue = WorkQueue::new(names(10));
    let one = drain(&mut queue, 1, &fails_on_odd);
    let mut queue = WorkQueue::new(names(10));
    let two = drain(&mut queue, 2, &fails_on_odd);
    let mut queue = WorkQueue::new(names(10));
    let eight = drain(&mut queue, 8, &fails_on_odd);
    assert_eq!(successes(&one), successes(&two));
    assert_eq!(successes(&two), successes(&eight));
    let expected: BTreeSet<String> =
        ["img0.png", "img2.png", "img4.png", "img6.png", "img8.png"].iter().map(|s| String::from(*s)).collect();
    assert_eq!(successes(&one), expected);
}

#[test]
fn duplicate_paths_are_each_processed() {
    let paths = vec![String::from("a.png"), String::from("a.png"), String::from("b.png")];
    let calls = RefCell::new(0usize);
    let encode = |_path: &String| {
        *calls.borrow_mut() += 1;
        CompressionOutcome::Success
    };
    let mut queue = WorkQueue::new(paths);
    let report = drain(&mut queue, 2, &encode);
    assert_eq!(*calls.borrow(), 3);
    let listed: Vec<String> = report.iter().map(|r| r.path.clone()).collect();
    assert_eq!(listed, vec!["b.png", "a.png", "a.png"]);
}

#[test]
fn no_workers_are_enough_for_an_empty_queue() {
    let calls = RefCell::new(0usize);
    let encode = |_path: &String| {
        *calls.borrow_mut() += 1;
        CompressionOutcome::Success
    };
    let mut queue = WorkQueue::new(Vec::new());
    let report = drain(&mut queue, 0, &encode);
    assert!(report.is_empty());
    assert!(queue.is_empty());
    assert_eq!(*calls.borrow(), 0);
}

#[test]
fn at_least_one_worker_on_this_machine() {
    assert!(worker_count() >= 1);
    assert_eq!(worker_count(), worker_count());
}

#[test]
fn drain_on_this_machine() {
    let calls = RefCell::new(0usize);
    let encode = |path: &String| {
        *calls.borrow_mut() += 1;
        fails_on_odd(path)
    };
    let mut queue = WorkQueue::new(names(9));
    let report = drain_on_physical_cores(&mut queue, &encode);
    assert!(queue.is_empty());
    assert_eq!(report.len(), 9);
    assert_eq!(*calls.borrow(), 9);
    let listed: Vec<String> = report.iter().map(|r| r.path.clone()).collect();
    let mut expected = names(9);
    expected.reverse();
    assert_eq!(listed, expected);
    assert_eq!(successes(&report).len(), 5);
}
