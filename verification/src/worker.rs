//! The life of the Bluetooth worker: start up, keep the snapshot fresh, hand out
//! commands, stop when the user interface is gone.
use vstd::prelude::*;

use crate::model::Command;
use crate::text::concat_texts;

verus! {

/// Milliseconds between two refreshes when nothing else happens.
pub const REFRESH_MILLIS: u64 = 1200;

/// What the worker has to do next.
#[derive(Clone, Copy, Debug, PartialEq, Eq)]
pub enum Task {
    /// Build the asynchronous runtime.
    BuildRuntime,
    /// Open a session with the Bluetooth daemon.
    OpenSession,
    /// Register the pairing agent.
    RegisterAgent,
    /// Find the default adapter.
    FindAdapter,
    /// Power the adapter on.
    PowerOn,
    /// Start discovery, which then runs until the worker stops.
    Discover,
    /// Publish a fresh snapshot.
    Publish,
    /// Wait for a discovery event, a command or the refresh timer.
    Listen,
    /// Start a job for the command, without waiting for it.
    Dispatch(Command),
}

/// What came of a task.
#[derive(Debug)]
pub enum Event {
    Done,
    /// The default adapter was found, and this is its name.
    Adapter(String),
    Failed(String),
    /// Discovery saw something change.
    DeviceSeen,
    /// The refresh timer fired.
    Tick,
    /// The user interface asked for a command.
    Asked(Command),
    /// The user interface is gone.
    Closed,
}

/// What an [`Event`] holds.
#[verifier::ext_equal]
pub enum EventModel {
    Done,
    Adapter(Seq<char>),
    Failed(Seq<char>),
    DeviceSeen,
    Tick,
    Asked(Command),
    Closed,
}

impl DeepView for Event {
    type V = EventModel;

    open spec fn deep_view(&self) -> EventModel {
        match *self {
            Event::Done => EventModel::Done,
            Event::Adapter(name) => EventModel::Adapter(name@),
            Event::Failed(why) => EventModel::Failed(why@),
            Event::DeviceSeen => EventModel::DeviceSeen,
            Event::Tick => EventModel::Tick,
            Event::Asked(command) => EventModel::Asked(command),
            Event::Closed => EventModel::Closed,
        }
    }
}

/// Where the worker stands.
#[derive(Debug)]
pub enum Worker {
    BuildingRuntime,
    OpeningSession,
    RegisteringAgent,
    FindingAdapter,
    /// Holds the adapter's name.
    PoweringOn(String),
    StartingDiscovery,
    Publishing,
    Listening,
    Dispatching(Command),
    Stopped,
}

/// What a [`Worker`] holds.
#[verifier::ext_equal]
pub enum WorkerModel {
    BuildingRuntime,
    OpeningSession,
    RegisteringAgent,
    FindingAdapter,
    PoweringOn(Seq<char>),
    StartingDiscovery,
    Publishing,
    Listening,
    Dispatching(Command),
    Stopped,
}

impl DeepView for Worker {
    type V = WorkerModel;

    open spec fn deep_view(&self) -> WorkerModel {
        match *self {
            Worker::BuildingRuntime => WorkerModel::BuildingRuntime,
            Worker::OpeningSession => WorkerModel::OpeningSession,
            Worker::RegisteringAgent => WorkerModel::RegisteringAgent,
            Worker::FindingAdapter => WorkerModel::FindingAdapter,
            Worker::PoweringOn(name) => WorkerModel::PoweringOn(name@),
            Worker::StartingDiscovery => WorkerModel::StartingDiscovery,
            Worker::Publishing => WorkerModel::Publishing,
            Worker::Listening => WorkerModel::Listening,
            Worker::Dispatching(command) => WorkerModel::Dispatching(command),
            Worker::Stopped => WorkerModel::Stopped,
        }
    }
}

impl WorkerModel {
    /// The task at hand; none once the worker has stopped.
    pub open spec fn task(self) -> Option<Task> {
        match self {
            WorkerModel::BuildingRuntime => Some(Task::BuildRuntime),
            WorkerModel::OpeningSession => Some(Task::OpenSession),
            WorkerModel::RegisteringAgent => Some(Task::RegisterAgent),
            WorkerModel::FindingAdapter => Some(Task::FindAdapter),
            WorkerModel::PoweringOn(_) => Some(Task::PowerOn),
            WorkerModel::StartingDiscovery => Some(Task::Discover),
            WorkerModel::Publishing => Some(Task::Publish),
            WorkerModel::Listening => Some(Task::Listen),
            WorkerModel::Dispatching(command) => Some(Task::Dispatch(command)),
            WorkerModel::Stopped => None,
        }
    }

    /// Whether the worker is still starting up, so that its task can fail.
    pub open spec fn is_starting(self) -> bool {
        match self {
            WorkerModel::BuildingRuntime => true,
            WorkerModel::OpeningSession => true,
            WorkerModel::RegisteringAgent => true,
            WorkerModel::FindingAdapter => true,
            WorkerModel::PoweringOn(_) => true,
            WorkerModel::StartingDiscovery => true,
            _ => false,
        }
    }

    /// Whether `event` can come of the task at hand.
    pub open spec fn awaits(self, event: EventModel) -> bool {
        match event {
            EventModel::Done => !(self is FindingAdapter) && !(self is Listening)
                && !(self is Stopped),
            EventModel::Adapter(_) => self is FindingAdapter,
            EventModel::Failed(_) => self.is_starting(),
            _ => self is Listening,
        }
    }

    /// The worker after what came of its task.
    pub open spec fn after(self, event: EventModel) -> WorkerModel {
        match event {
            EventModel::Failed(_) => WorkerModel::Stopped,
            EventModel::Closed => WorkerModel::Stopped,
            EventModel::Adapter(name) => WorkerModel::PoweringOn(name),
            EventModel::DeviceSeen => WorkerModel::Publishing,
            EventModel::Tick => WorkerModel::Publishing,
            EventModel::Asked(command) => WorkerModel::Dispatching(command),
            EventModel::Done => match self {
                WorkerModel::BuildingRuntime => WorkerModel::OpeningSession,
                WorkerModel::OpeningSession => WorkerModel::RegisteringAgent,
                WorkerModel::RegisteringAgent => WorkerModel::FindingAdapter,
                WorkerModel::PoweringOn(_) => WorkerModel::StartingDiscovery,
                WorkerModel::StartingDiscovery => WorkerModel::Publishing,
                WorkerModel::Publishing => WorkerModel::Listening,
                WorkerModel::Dispatching(_) => WorkerModel::Publishing,
                _ => self,
            },
        }
    }

    /// The status line to show for what came of the task; none to leave it as it is.
    pub open spec fn status(self, event: EventModel) -> Option<Seq<char>> {
        match event {
            EventModel::Failed(why) => if self is BuildingRuntime {
                Some("failed to start async runtime: "@ + why)
            } else {
                Some("bluetooth error: "@ + why)
            },
            EventModel::Done => match self {
                WorkerModel::PoweringOn(name) => Some("using adapter "@ + name),
                _ => None,
            },
            _ => None,
        }
    }
}

impl Worker {
    /// A worker that has yet to start up.
    pub fn start() -> (worker: Worker)
        ensures
            worker.deep_view() == WorkerModel::BuildingRuntime,
            worker.deep_view().task() == Some(Task::BuildRuntime),
    {
        Worker::BuildingRuntime
    }

    /// The task at hand; none once the worker has stopped.
    pub fn task(&self) -> (task: Option<Task>)
        ensures
            task == self.deep_view().task(),
    {
        match self {
            Worker::BuildingRuntime => Some(Task::BuildRuntime),
            Worker::OpeningSession => Some(Task::OpenSession),
            Worker::RegisteringAgent => Some(Task::RegisterAgent),
            Worker::FindingAdapter => Some(Task::FindAdapter),
            Worker::PoweringOn(_) => Some(Task::PowerOn),
            Worker::StartingDiscovery => Some(Task::Discover),
            Worker::Publishing => Some(Task::Publish),
            Worker::Listening => Some(Task::Listen),
            Worker::Dispatching(command) => Some(Task::Dispatch(*command)),
            Worker::Stopped => None,
        }
    }

    /// Whether `event` can come of the task at hand.
    pub fn expects(&self, event: &Event) -> (expected: bool)
        ensures
            expected == self.deep_view().awaits(event.deep_view()),
    {
        match event {
            Event::Done => !matches!(
                self,
                Worker::FindingAdapter | Worker::Listening | Worker::Stopped
            ),
            Event::Adapter(_) => matches!(self, Worker::FindingAdapter),
            Event::Failed(_) => matches!(
                self,
                Worker::BuildingRuntime | Worker::OpeningSession | Worker::RegisteringAgent
                    | Worker::FindingAdapter | Worker::PoweringOn(_) | Worker::StartingDiscovery
            ),
            Event::DeviceSeen | Event::Tick | Event::Asked(_) | Event::Closed => matches!(
                self,
                Worker::Listening
            ),
        }
    }

    /// The worker after what came of its task, and the status line to show for it,
    /// if any.
    pub fn resume(self, event: Event) -> (out: (Worker, Option<String>))
        requires
            self.deep_view().awaits(event.deep_view()),
        ensures
            out.0.deep_view() == self.deep_view().after(event.deep_view()),
            out.1.deep_view() == self.deep_view().status(event.deep_view()),
    {
        match event {
            Event::Failed(why) => {
                let prefix: &str = match self {
                    Worker::BuildingRuntime => "failed to start async runtime: ",
                    _ => "bluetooth error: ",
                };
                (Worker::Stopped, Some(concat_texts(prefix, why.as_str())))
            },
            Event::Closed => (Worker::Stopped, None),
            Event::Adapter(name) => (Worker::PoweringOn(name), None),
            Event::DeviceSeen => (Worker::Publishing, None),
            Event::Tick => (Worker::Publishing, None),
            Event::Asked(command) => (Worker::Dispatching(command), None),
            Event::Done => match self {
                Worker::BuildingRuntime => (Worker::OpeningSession, None),
                Worker::OpeningSession => (Worker::RegisteringAgent, None),
                Worker::RegisteringAgent => (Worker::FindingAdapter, None),
                Worker::PoweringOn(name) => (
                    Worker::StartingDiscovery,
                    Some(concat_texts("using adapter ", name.as_str())),
                ),
                Worker::StartingDiscovery => (Worker::Publishing, None),
                Worker::Publishing => (Worker::Listening, None),
                Worker::Dispatching(_) => (Worker::Publishing, None),
                other => (other, None),
            },
        }
    }
}

/// The worker after a run of events.
pub open spec fn after_events(worker: WorkerModel, events: Seq<EventModel>) -> WorkerModel
    decreases events.len(),
{
    if events.len() == 0 {
        worker
    } else {
        after_events(worker, events.drop_last()).after(events.last())
    }
}

/// Whether each of a run of events can come of the task at hand at that point.
pub open spec fn awaits_events(worker: WorkerModel, events: Seq<EventModel>) -> bool
    decreases events.len(),
{
    events.len() > 0 ==> awaits_events(worker, events.drop_last()) && after_events(
        worker,
        events.drop_last(),
    ).awaits(events.last())
}

/// Start-up goes through its tasks in order, names the adapter once it is powered,
/// and publishes a snapshot before the first wait.
pub proof fn startup_publishes_before_listening(name: Seq<char>)
    ensures
        ({
            let building = WorkerModel::BuildingRuntime;
            let opening = building.after(EventModel::Done);
            let registering = opening.after(EventModel::Done);
            let finding = registering.after(EventModel::Done);
            let powering = finding.after(EventModel::Adapter(name));
            let starting = powering.after(EventModel::Done);
            let publishing = starting.after(EventModel::Done);
            let listening = publishing.after(EventModel::Done);
            &&& building.task() == Some(Task::BuildRuntime)
            &&& building.awaits(EventModel::Done)
            &&& opening.task() == Some(Task::OpenSession)
            &&& opening.awaits(EventModel::Done)
            &&& registering.task() == Some(Task::RegisterAgent)
            &&& registering.awaits(EventModel::Done)
            &&& finding.task() == Some(Task::FindAdapter)
            &&& finding.awaits(EventModel::Adapter(name))
            &&& powering.task() == Some(Task::PowerOn)
            &&& powering.awaits(EventModel::Done)
            &&& powering.status(EventModel::Done) == Some("using adapter "@ + name)
            &&& starting.task() == Some(Task::Discover)
            &&& starting.awaits(EventModel::Done)
            &&& publishing.task() == Some(Task::Publish)
            &&& publishing.awaits(EventModel::Done)
            &&& listening.task() == Some(Task::Listen)
        }),
{
}

/// A failure during start-up stops the worker and is shown.
pub proof fn startup_failures_are_reported(worker: WorkerModel, why: Seq<char>)
    requires
        worker.task() matches Some(task) && (task is BuildRuntime || task is OpenSession
            || task is RegisterAgent || task is FindAdapter || task is PowerOn || task is Discover),
    ensures
        worker.awaits(EventModel::Failed(why)),
        worker.after(EventModel::Failed(why)) is Stopped,
        worker.after(EventModel::Failed(why)).task() is None,
        worker.status(EventModel::Failed(why)) == Some(
            if worker.task() == Some(Task::BuildRuntime) {
                "failed to start async runtime: "@ + why
            } else {
                "bluetooth error: "@ + why
            },
        ),
{
}

/// Whatever wakes the worker, other than the user interface being gone, is
/// followed by a refresh before it waits again, and a command is handed out, as
/// it was asked, before that refresh.
pub proof fn every_wakeup_is_followed_by_a_refresh(event: EventModel)
    requires
        WorkerModel::Listening.awaits(event),
        !(event is Closed),
    ensures
        ({
            let next = WorkerModel::Listening.after(event);
            match event {
                EventModel::Asked(command) => {
                    &&& next.task() == Some(Task::Dispatch(command))
                    &&& next.awaits(EventModel::Done)
                    &&& next.after(EventModel::Done).task() == Some(Task::Publish)
                },
                _ => next.task() == Some(Task::Publish),
            }
        }),
        WorkerModel::Publishing.awaits(EventModel::Done),
        WorkerModel::Publishing.after(EventModel::Done) == WorkerModel::Listening,
{
}

/// Over any run from start-up on, the worker waits only right after it has
/// published a snapshot.
pub proof fn every_wait_follows_a_refresh(events: Seq<EventModel>)
    requires
        awaits_events(WorkerModel::BuildingRuntime, events),
        after_events(WorkerModel::BuildingRuntime, events).task() == Some(Task::Listen),
    ensures
        events.len() > 0,
        events.last() is Done,
        after_events(WorkerModel::BuildingRuntime, events.drop_last()).task() == Some(
            Task::Publish,
        ),
{
}

/// The commands that the user interface asked for, in order.
pub open spec fn commands_asked(events: Seq<EventModel>) -> Seq<Command>
    decreases events.len(),
{
    if events.len() == 0 {
        Seq::empty()
    } else {
        let earlier = commands_asked(events.drop_last());
        match events.last() {
            EventModel::Asked(command) => earlier.push(command),
            _ => earlier,
        }
    }
}

/// The commands that the worker set about handing out, in order: those of the tasks
/// that its events led to.
pub open spec fn commands_handed_out(worker: WorkerModel, events: Seq<EventModel>) -> Seq<Command>
    decreases events.len(),
{
    if events.len() == 0 {
        Seq::empty()
    } else {
        let earlier = commands_handed_out(worker, events.drop_last());
        match after_events(worker, events).task() {
            Some(Task::Dispatch(command)) => earlier.push(command),
            _ => earlier,
        }
    }
}

/// Over any run of events the commands handed out are those asked for, in order and
/// once each.
pub proof fn commands_are_handed_out_as_asked(worker: WorkerModel, events: Seq<EventModel>)
    requires
        awaits_events(worker, events),
    ensures
        commands_handed_out(worker, events) == commands_asked(events),
    decreases events.len(),
{
    if events.len() > 0 {
        commands_are_handed_out_as_asked(worker, events.drop_last());
    }
}

/// Whether start-up is over and the worker has not stopped.
pub open spec fn is_running(worker: WorkerModel) -> bool {
    worker is Publishing || worker is Listening || worker is Dispatching
}

/// Once started, the worker keeps running until the user interface is gone: no
/// command, discovery event or refresh stops it.
pub proof fn only_closing_stops_a_running_worker(worker: WorkerModel, events: Seq<EventModel>)
    requires
        is_running(worker),
        awaits_events(worker, events),
        forall|i: int| 0 <= i < events.len() ==> !(#[trigger] events[i] is Closed),
    ensures
        is_running(after_events(worker, events)),
        after_events(worker, events).task() matches Some(task) && (task is Publish
            || task is Listen || task is Dispatch),
    decreases events.len(),
{
    if events.len() > 0 {
        let earlier = events.drop_last();
        assert forall|i: int| 0 <= i < earlier.len() implies !(#[trigger] earlier[i] is Closed) by {
            assert(earlier[i] == events[i]);
        }
        only_closing_stops_a_running_worker(worker, earlier);
        assert(!(events[events.len() - 1] is Closed));
    }
}

/// When the user interface is gone the worker stops and shows nothing more.
pub proof fn closing_stops_the_worker()
    ensures
        WorkerModel::Listening.awaits(EventModel::Closed),
        WorkerModel::Listening.after(EventModel::Closed) is Stopped,
        WorkerModel::Listening.status(EventModel::Closed) is None,
{
}

/// A stopped worker waits for nothing.
pub proof fn stopped_worker_stays_stopped(event: EventModel)
    ensures
        WorkerModel::Stopped.task() is None,
        !WorkerModel::Stopped.awaits(event),
{
}

/// What can come of each task: start-up tasks succeed or fail, and finding the
/// adapter gives its name; publishing and handing out a command only succeed; waiting
/// ends with a discovery event, the timer, a command or the user interface being
/// gone.
pub proof fn tasks_and_their_events(worker: WorkerModel, event: EventModel)
    ensures
        worker.awaits(event) <==> match worker.task() {
            None => false,
            Some(Task::FindAdapter) => event is Adapter || event is Failed,
            Some(Task::Listen) => event is DeviceSeen || event is Tick || event is Asked
                || event is Closed,
            Some(Task::Publish) => event is Done,
            Some(Task::Dispatch(_)) => event is Done,
            _ => event is Done || event is Failed,
        },
{
}

/// The status line changes when a task fails and when the adapter has been powered
/// on, and at no other event.
pub proof fn few_events_change_the_status(worker: WorkerModel, event: EventModel)
    requires
        worker.awaits(event),
    ensures
        worker.status(event) is Some <==> event is Failed || worker.task() == Some(Task::PowerOn),
{
}

/// When nothing else happens, five refreshes come in six seconds.
pub proof fn refreshes_keep_their_pace()
    ensures
        5 * REFRESH_MILLIS == 6 * 1000,
{
}

/// The model of an event holds what the event holds.
pub proof fn event_model_in_full(event: Event)
    ensures
        event is Done <==> event.deep_view() is Done,
        event is DeviceSeen <==> event.deep_view() is DeviceSeen,
        event is Tick <==> event.deep_view() is Tick,
        event is Closed <==> event.deep_view() is Closed,
        event matches Event::Adapter(name) ==> event.deep_view() == EventModel::Adapter(name@),
        event matches Event::Failed(why) ==> event.deep_view() == EventModel::Failed(why@),
        event matches Event::Asked(command) ==> event.deep_view() == EventModel::Asked(command),
{
}

} // verus!
