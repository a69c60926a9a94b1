use ping_dispatch::creator::CreationWorker;
use ping_dispatch::naming::is_valid_name;
use ping_dispatch::repeat::{Progress, Repeater, Signal};
use ping_dispatch::sender::SendTask;

#[test]
fn repeater_starts_idle() {
    let r = Repeater::new(Some(3));
    assert_eq!(r.progress, Progress::Idle);
    assert_eq!(r.remaining, Some(3));
    assert!(!r.is_over());
}

#[test]
fn repeater_issues_on_start_and_on_each_success() {
    let mut r = Repeater::new(None);
    assert!(r.step(Signal::Start));
    assert_eq!(r.progress, Progress::InFlight);
    for _ in 0..100 {
        assert!(r.step(Signal::Succeeded));
        assert_eq!(r.progress, Progress::InFlight);
        assert_eq!(r.remaining, None);
    }
    assert!(!r.is_over());
}

#[test]
fn repeater_ignores_second_start_while_in_flight() {
    let mut r = Repeater::new(None);
    assert!(r.step(Signal::Start));
    assert!(!r.step(Signal::Start));
    assert_eq!(r.progress, Progress::InFlight);
}

#[test]
fn repeater_ignores_outcomes_before_start() {
    let mut r = Repeater::new(Some(2));
    assert!(!r.step(Signal::Succeeded));
    assert!(!r.step(Signal::Failed));
    assert_eq!(r, Repeater::new(Some(2)));
}

#[test]
fn repeater_bounded_issues_exactly_its_bound() {
    for n in 0..30u64 {
        let mut r = Repeater::new(Some(n));
        let mut issued = 0u64;
        if r.step(Signal::Start) {
            issued += 1;
        }
        for _ in 0..n {
            if r.step(Signal::Succeeded) {
                issued += 1;
            }
        }
        assert_eq!(issued, n);
        assert_eq!(r.progress, Progress::Done);
        assert_eq!(r.remaining, Some(0));
        assert!(r.is_over());
        assert!(!r.step(Signal::Succeeded));
        assert!(!r.step(Signal::Start));
    }
}

#[test]
fn repeater_with_zero_bound_is_done_on_start() {
    let mut r = Repeater::new(Some(0));
    assert!(!r.step(Signal::Start));
    assert_eq!(r.progress, Progress::Done);
}

#[test]
fn repeater_stops_for_good_on_failure() {
    let mut r = Repeater::new(None);
    assert!(r.step(Signal::Start));
    assert!(r.step(Signal::Succeeded));
    assert!(!r.step(Signal::Failed));
    assert_eq!(r.progress, Progress::Failed);
    assert!(r.is_over());
    assert!(!r.step(Signal::Succeeded));
    assert!(!r.step(Signal::Start));
    assert!(!r.step(Signal::Failed));
    assert_eq!(r.progress, Progress::Failed);
}

#[test]
fn repeater_never_has_two_requests_outstanding() {
    let script = [
        Signal::Succeeded,
        Signal::Start,
        Signal::Start,
        Signal::Succeeded,
        Signal::Succeeded,
        Signal::Start,
        Signal::Succeeded,
        Signal::Failed,
        Signal::Succeeded,
        Signal::Start,
    ];
    let mut r = Repeater::new(Some(5));
    let mut outstanding = 0i64;
    for signal in script {
        let answered = r.progress == Progress::InFlight && signal != Signal::Start;
        if answered {
            outstanding -= 1;
        }
        if r.step(signal) {
            outstanding += 1;
        }
        assert!(outstanding == 0 || outstanding == 1);
        assert_eq!(outstanding == 1, r.progress == Progress::InFlight);
    }
    assert_eq!(r.progress, Progress::Failed);
}

#[test]
fn send_task_mentions_the_configured_identifier_every_time() {
    let mut task = SendTask::new(77, 42, None);
    let first = task.step(Signal::Start).unwrap();
    assert_eq!(first.channel_id, 77);
    assert_eq!(first.content, "<@42>");
    for _ in 0..50 {
        let next = task.step(Signal::Succeeded).unwrap();
        assert_eq!(next.channel_id, 77);
        assert_eq!(next.content, "<@42>");
    }
    assert!(!task.is_over());
    assert!(!task.has_failed());
}

#[test]
fn send_task_waits_for_the_previous_send() {
    let mut task = SendTask::new(1, 2, None);
    assert!(task.step(Signal::Start).is_some());
    assert!(task.step(Signal::Start).is_none());
    assert!(task.step(Signal::Succeeded).is_some());
}

#[test]
fn send_task_ends_on_refused_message() {
    let mut task = SendTask::new(1, 2, None);
    assert!(task.step(Signal::Start).is_some());
    assert!(task.step(Signal::Failed).is_none());
    assert!(task.has_failed());
    assert!(task.is_over());
    assert!(task.step(Signal::Succeeded).is_none());
    assert!(task.step(Signal::Start).is_none());
}

#[test]
fn send_task_with_limit_ends_after_that_many_messages() {
    let mut task = SendTask::new(9, 8, Some(3));
    assert!(task.step(Signal::Start).is_some());
    assert!(task.step(Signal::Succeeded).is_some());
    assert!(task.step(Signal::Succeeded).is_some());
    assert!(task.step(Signal::Succeeded).is_none());
    assert!(task.is_over());
    assert!(!task.has_failed());
    assert_eq!(task.channel_id, 9);
    assert_eq!(task.ping_id, 8);
}

#[test]
fn creation_worker_creates_its_count_under_valid_names() {
    let mut worker = CreationWorker::new(5, 10, 50);
    let mut created = 0;
    let mut request = worker.step(Signal::Start);
    while let Some(r) = request {
        assert_eq!(r.guild_id, 5);
        assert!(is_valid_name(&r.name, 50));
        assert_eq!(r.name.len(), 50);
        created += 1;
        request = worker.step(Signal::Succeeded);
    }
    assert_eq!(created, 10);
    assert!(worker.is_over());
    assert!(!worker.has_failed());
}

#[test]
fn creation_worker_with_nothing_to_do_is_done_at_once() {
    let mut worker = CreationWorker::new(5, 0, 50);
    assert!(worker.step(Signal::Start).is_none());
    assert!(worker.is_over());
    assert!(!worker.has_failed());
}

#[test]
fn creation_worker_ends_on_refused_creation() {
    let mut worker = CreationWorker::new(5, 10, 50);
    assert!(worker.step(Signal::Start).is_some());
    assert!(worker.step(Signal::Succeeded).is_some());
    assert!(worker.step(Signal::Failed).is_none());
    assert!(worker.has_failed());
    assert!(worker.step(Signal::Succeeded).is_none());
}

#[test]
fn batch_worker_creates_one_batch() {
    let mut worker = CreationWorker::for_batch(5, 50);
    assert_eq!(worker, CreationWorker::new(5, 10, 50));
    let mut created = 0;
    let mut request = worker.step(Signal::Start);
    while let Some(r) = request {
        assert_eq!(r.guild_id, 5);
        assert!(is_valid_name(&r.name, 50));
        created += 1;
        request = worker.step(Signal::Succeeded);
    }
    assert_eq!(created, 10);
}

#[test]
fn remainder_worker_creates_the_remainder() {
    let mut worker = CreationWorker::for_remainder(5, 7, 50);
    assert_eq!(worker, CreationWorker::new(5, 7, 50));
    let mut created = 0;
    let mut request = worker.step(Signal::Start);
    while request.is_some() {
        created += 1;
        request = worker.step(Signal::Succeeded);
    }
    assert_eq!(created, 7);
    let mut idle = CreationWorker::for_remainder(5, 0, 50);
    assert!(idle.step(Signal::Start).is_none());
    assert!(idle.is_over());
}
