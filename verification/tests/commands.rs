use btpair::job::{Job, Reply, Request};
use btpair::model::{Address, Command};
use btpair::worker::{Event, Task, Worker, REFRESH_MILLIS};

const PAD: Address = Address([1, 2, 3, 4, 5, 6]);

fn failed() -> Reply {
    Reply::Failed("timed out".to_string())
}

fn name(text: &str) -> Reply {
    Reply::Name(Some(text.to_string()))
}

/// Runs a job on the replies, until it refreshes and ends. Gives what it asked for
/// before the refresh, and the one status line that it showed.
fn run(command: Command, replies: Vec<Reply>) -> (Vec<Request>, String) {
    let mut job = Job::start(command);
    let mut asked = Vec::new();
    let mut shown = Vec::new();
    for reply in replies {
        assert!(shown.is_empty());
        asked.push(job.request().unwrap());
        let (next, status) = job.resume(reply);
        shown.extend(status);
        job = next;
    }
    assert_eq!(job.request(), Some(Request::Publish));
    let (job, status) = job.resume(Reply::Done);
    assert_eq!(status, None);
    assert_eq!(job.request(), None);
    assert_eq!(shown.len(), 1);
    (asked, shown.remove(0))
}

#[test]
fn connecting_pairs_only_where_needed() {
    let (asked, status) = run(
        Command::Connect(PAD),
        vec![Reply::Done, Reply::Paired(true), Reply::Done, Reply::Done, name("Pad")],
    );
    assert_eq!(
        asked,
        vec![
            Request::Open(PAD),
            Request::CheckPaired,
            Request::Trust,
            Request::Connect,
            Request::ReadName
        ]
    );
    assert_eq!(status, "connected Pad");

    let (asked, status) = run(
        Command::Connect(PAD),
        vec![
            Reply::Done,
            Reply::Paired(false),
            Reply::Done,
            Reply::Done,
            Reply::Done,
            Reply::Name(None),
        ],
    );
    assert_eq!(
        asked,
        vec![
            Request::Open(PAD),
            Request::CheckPaired,
            Request::Pair,
            Request::Trust,
            Request::Connect,
            Request::ReadName
        ]
    );
    assert_eq!(status, "connected 01:02:03:04:05:06");
}

#[test]
fn connecting_survives_trust_and_name_failures() {
    let (_, status) = run(
        Command::Connect(PAD),
        vec![Reply::Done, Reply::Paired(true), failed(), Reply::Done, failed()],
    );
    assert_eq!(status, "connected 01:02:03:04:05:06");
}

#[test]
fn connecting_reports_failures() {
    let text = "Connect(01:02:03:04:05:06) failed: timed out";
    let runs = vec![
        vec![failed()],
        vec![Reply::Done, failed()],
        vec![Reply::Done, Reply::Paired(false), failed()],
        vec![Reply::Done, Reply::Paired(true), Reply::Done, failed()],
    ];
    for replies in runs {
        assert_eq!(run(Command::Connect(PAD), replies).1, text);
    }
}

#[test]
fn disconnecting_reads_the_name_first() {
    let (asked, status) = run(
        Command::Disconnect(PAD),
        vec![Reply::Done, name("Pad"), Reply::Done],
    );
    assert_eq!(
        asked,
        vec![Request::Open(PAD), Request::ReadName, Request::Disconnect]
    );
    assert_eq!(status, "disconnected Pad");
    let (_, status) = run(
        Command::Disconnect(PAD),
        vec![Reply::Done, failed(), Reply::Done],
    );
    assert_eq!(status, "disconnected 01:02:03:04:05:06");
}

#[test]
fn disconnecting_reports_failures() {
    let text = "Disconnect(01:02:03:04:05:06) failed: timed out";
    assert_eq!(run(Command::Disconnect(PAD), vec![failed()]).1, text);
    assert_eq!(
        run(Command::Disconnect(PAD), vec![Reply::Done, name("Pad"), failed()]).1,
        text
    );
}

#[test]
fn removing_is_immediate() {
    let (asked, status) = run(Command::Remove(PAD), vec![Reply::Done]);
    assert_eq!(asked, vec![Request::Remove(PAD)]);
    assert_eq!(status, "removed 01:02:03:04:05:06");
    assert_eq!(
        run(Command::Remove(PAD), vec![failed()]).1,
        "Remove(01:02:03:04:05:06) failed: timed out"
    );
}

/// Takes a worker through start-up until it listens.
fn listening() -> Worker {
    let mut worker = Worker::start();
    loop {
        let event = match worker.task() {
            Some(Task::Listen) => return worker,
            Some(Task::FindAdapter) => Event::Adapter("hci0".to_string()),
            _ => Event::Done,
        };
        worker = worker.resume(event).0;
    }
}

#[test]
fn startup_goes_in_order() {
    let mut worker = Worker::start();
    let mut tasks = Vec::new();
    let mut shown = Vec::new();
    while worker.task() != Some(Task::Listen) {
        let task = worker.task().unwrap();
        tasks.push(task);
        let event = match task {
            Task::FindAdapter => Event::Adapter("hci0".to_string()),
            _ => Event::Done,
        };
        let (next, status) = worker.resume(event);
        if let Some(status) = status {
            shown.push((task, status));
        }
        worker = next;
    }
    assert_eq!(
        tasks,
        vec![
            Task::BuildRuntime,
            Task::OpenSession,
            Task::RegisterAgent,
            Task::FindAdapter,
            Task::PowerOn,
            Task::Discover,
            Task::Publish
        ]
    );
    assert_eq!(shown, vec![(Task::PowerOn, "using adapter hci0".to_string())]);
}

#[test]
fn startup_failures_stop_the_worker() {
    for stage in 0..6 {
        let mut worker = Worker::start();
        for _ in 0..stage {
            let event = match worker.task() {
                Some(Task::FindAdapter) => Event::Adapter("hci0".to_string()),
                _ => Event::Done,
            };
            worker = worker.resume(event).0;
        }
        let (worker, status) = worker.resume(Event::Failed("no daemon".to_string()));
        assert_eq!(worker.task(), None);
        let prefix = if stage == 0 { "failed to start async runtime" } else { "bluetooth error" };
        assert_eq!(status, Some(format!("{prefix}: no daemon")));
    }
}

#[test]
fn wakeups_lead_to_a_refresh() {
    for event in vec![Event::DeviceSeen, Event::Tick] {
        let (worker, status) = listening().resume(event);
        assert_eq!(worker.task(), Some(Task::Publish));
        assert_eq!(status, None);
        let (worker, status) = worker.resume(Event::Done);
        assert_eq!(worker.task(), Some(Task::Listen));
        assert_eq!(status, None);
    }
}

#[test]
fn commands_are_dispatched_then_refreshed() {
    let (worker, status) = listening().resume(Event::Asked(Command::Connect(PAD)));
    assert_eq!(worker.task(), Some(Task::Dispatch(Command::Connect(PAD))));
    assert_eq!(status, None);
    let (worker, _) = worker.resume(Event::Done);
    assert_eq!(worker.task(), Some(Task::Publish));
    let (worker, _) = worker.resume(Event::Done);
    assert_eq!(worker.task(), Some(Task::Listen));
}

#[test]
fn closing_stops_a_listening_worker() {
    let (worker, status) = listening().resume(Event::Closed);
    assert_eq!(worker.task(), None);
    assert_eq!(status, None);
}

#[test]
fn refresh_interval() {
    assert_eq!(REFRESH_MILLIS, 1200);
}

#[test]
fn only_fitting_replies_and_events_are_expected() {
    let job = Job::start(Command::Connect(PAD));
    assert!(job.expects(&Reply::Done) && job.expects(&failed()));
    assert!(!job.expects(&Reply::Paired(true)) && !job.expects(&name("Pad")));
    let (job, _) = job.resume(Reply::Done);
    assert!(job.expects(&Reply::Paired(true)) && !job.expects(&Reply::Done));
    let (job, _) = job.resume(failed());
    assert!(job.expects(&Reply::Done) && !job.expects(&failed()));
    let (job, _) = job.resume(Reply::Done);
    assert!(!job.expects(&Reply::Done));

    let worker = Worker::start();
    assert!(worker.expects(&Event::Done) && worker.expects(&Event::Failed(String::new())));
    assert!(!worker.expects(&Event::Tick) && !worker.expects(&Event::Adapter(String::new())));
    let worker = listening();
    assert!(worker.expects(&Event::Tick) && worker.expects(&Event::Closed));
    assert!(!worker.expects(&Event::Done) && !worker.expects(&Event::Failed(String::new())));
    let (worker, _) = worker.resume(Event::Closed);
    assert!(!worker.expects(&Event::Done) && !worker.expects(&Event::Closed));
}

#[test]
fn commands_are_handed_out_in_order() {
    let asked = vec![
        Command::Remove(PAD),
        Command::Connect(PAD),
        Command::Connect(PAD),
        Command::Disconnect(PAD),
    ];
    let mut worker = listening();
    let mut handed_out = Vec::new();
    for command in asked.clone() {
        worker = worker.resume(Event::Tick).0.resume(Event::Done).0;
        worker = worker.resume(Event::Asked(command)).0;
        while worker.task() != Some(Task::Listen) {
            if let Some(Task::Dispatch(command)) = worker.task() {
                handed_out.push(command);
            }
            worker = worker.resume(Event::Done).0;
        }
    }
    assert_eq!(handed_out, asked);
}
