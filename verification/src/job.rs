//! Commands as step-by-step jobs.
//!
//! A [`Job`] says which operation comes next and takes the reply to it. When the
//! command has succeeded or failed, a status line is shown and the snapshot is
//! refreshed, and the job is finished.
use vstd::prelude::*;
use vstd::string::*;

use crate::listing::{label, label_of};
use crate::model::{address_text, command_notation_in_full, Address, Command};
use crate::text::concat_texts;

verus! {

/// An operation that a job waits for. Those without an address, other than the
/// last, are about the device that the job has opened.
#[derive(Clone, Copy, Debug, PartialEq, Eq)]
pub enum Request {
    Open(Address),
    CheckPaired,
    Pair,
    Trust,
    Connect,
    ReadName,
    Disconnect,
    Remove(Address),
    /// Publish a fresh snapshot.
    Publish,
}

/// What came of an operation.
#[derive(Debug)]
pub enum Reply {
    Done,
    Paired(bool),
    Name(Option<String>),
    Failed(String),
}

/// What a [`Reply`] holds.
#[verifier::ext_equal]
pub enum ReplyModel {
    Done,
    Paired(bool),
    Name(Option<Seq<char>>),
    Failed(Seq<char>),
}

impl DeepView for Reply {
    type V = ReplyModel;

    open spec fn deep_view(&self) -> ReplyModel {
        match *self {
            Reply::Done => ReplyModel::Done,
            Reply::Paired(paired) => ReplyModel::Paired(paired),
            Reply::Name(name) => ReplyModel::Name(name.deep_view()),
            Reply::Failed(why) => ReplyModel::Failed(why@),
        }
    }
}

impl ReplyModel {
    /// Whether this is a reply to the given request.
    pub open spec fn answers(self, request: Request) -> bool {
        match self {
            ReplyModel::Failed(_) => !(request is Publish),
            ReplyModel::Paired(_) => request is CheckPaired,
            ReplyModel::Name(_) => request is ReadName,
            ReplyModel::Done => !(request is CheckPaired) && !(request is ReadName),
        }
    }

    /// The name that was read, if any.
    pub open spec fn name(self) -> Option<Seq<char>> {
        match self {
            ReplyModel::Name(name) => name,
            _ => None,
        }
    }
}

/// Where a connect job stands.
#[derive(Clone, Copy, Debug, PartialEq, Eq)]
pub enum ConnectStage {
    Opening,
    Checking,
    Pairing,
    Trusting,
    Connecting,
    Naming,
}

/// Where a disconnect job stands.
#[derive(Debug)]
pub enum DisconnectStage {
    Opening,
    Naming,
    /// Holds the name that was read before disconnecting.
    Disconnecting(Option<String>),
}

/// What a [`DisconnectStage`] holds.
#[verifier::ext_equal]
pub enum DisconnectModel {
    Opening,
    Naming,
    Disconnecting(Option<Seq<char>>),
}

/// A command that is being carried out.
#[derive(Debug)]
pub enum Job {
    Connect(Address, ConnectStage),
    Disconnect(Address, DisconnectStage),
    Remove(Address),
    /// The command has succeeded or failed; the snapshot is being refreshed.
    Refreshing,
    Finished,
}

/// What a [`Job`] holds.
#[verifier::ext_equal]
pub enum JobModel {
    Connect(Address, ConnectStage),
    Disconnect(Address, DisconnectModel),
    Remove(Address),
    Refreshing,
    Finished,
}

impl DeepView for DisconnectStage {
    type V = DisconnectModel;

    open spec fn deep_view(&self) -> DisconnectModel {
        match *self {
            DisconnectStage::Opening => DisconnectModel::Opening,
            DisconnectStage::Naming => DisconnectModel::Naming,
            DisconnectStage::Disconnecting(name) => DisconnectModel::Disconnecting(
                name.deep_view(),
            ),
        }
    }
}

impl DeepView for Job {
    type V = JobModel;

    open spec fn deep_view(&self) -> JobModel {
        match *self {
            Job::Connect(addr, stage) => JobModel::Connect(addr, stage),
            Job::Disconnect(addr, stage) => JobModel::Disconnect(addr, stage.deep_view()),
            Job::Remove(addr) => JobModel::Remove(addr),
            Job::Refreshing => JobModel::Refreshing,
            Job::Finished => JobModel::Finished,
        }
    }
}

/// A job for a command, before its first operation.
pub open spec fn job_for(command: Command) -> JobModel {
    match command {
        Command::Connect(addr) => JobModel::Connect(addr, ConnectStage::Opening),
        Command::Disconnect(addr) => JobModel::Disconnect(addr, DisconnectModel::Opening),
        Command::Remove(addr) => JobModel::Remove(addr),
    }
}

/// The status line for a command that failed.
pub open spec fn failure_status(command: Command, why: Seq<char>) -> Seq<char> {
    command.notation() + " failed: "@ + why
}

impl JobModel {
    /// The operation that the job waits for; none once it is finished.
    pub open spec fn request(self) -> Option<Request> {
        match self {
            JobModel::Connect(addr, stage) => Some(
                match stage {
                    ConnectStage::Opening => Request::Open(addr),
                    ConnectStage::Checking => Request::CheckPaired,
                    ConnectStage::Pairing => Request::Pair,
                    ConnectStage::Trusting => Request::Trust,
                    ConnectStage::Connecting => Request::Connect,
                    ConnectStage::Naming => Request::ReadName,
                },
            ),
            JobModel::Disconnect(addr, stage) => Some(
                match stage {
                    DisconnectModel::Opening => Request::Open(addr),
                    DisconnectModel::Naming => Request::ReadName,
                    DisconnectModel::Disconnecting(_) => Request::Disconnect,
                },
            ),
            JobModel::Remove(addr) => Some(Request::Remove(addr)),
            JobModel::Refreshing => Some(Request::Publish),
            JobModel::Finished => None,
        }
    }

    /// Whether the job waits for what `reply` replies to.
    pub open spec fn awaits(self, reply: ReplyModel) -> bool {
        match self.request() {
            Some(request) => reply.answers(request),
            None => false,
        }
    }

    /// The command that the job is still carrying out.
    pub open spec fn command(self) -> Option<Command> {
        match self {
            JobModel::Connect(addr, _) => Some(Command::Connect(addr)),
            JobModel::Disconnect(addr, _) => Some(Command::Disconnect(addr)),
            JobModel::Remove(addr) => Some(Command::Remove(addr)),
            _ => None,
        }
    }

    /// Whether the command fails if the operation at hand fails. It goes on without
    /// trusting the device and without its name.
    pub open spec fn needs_success(self) -> bool {
        match self.request() {
            Some(request) => !(request is Trust) && !(request is ReadName),
            None => false,
        }
    }

    /// The status line to show for the reply, where it decides the command.
    pub open spec fn status(self, reply: ReplyModel) -> Option<Seq<char>> {
        match self.command() {
            Some(command) => if reply is Failed && self.needs_success() {
                Some(failure_status(command, reply->Failed_0))
            } else {
                match self {
                    JobModel::Connect(addr, ConnectStage::Naming) => Some(
                        "connected "@ + label_of(reply.name(), addr),
                    ),
                    JobModel::Disconnect(addr, DisconnectModel::Disconnecting(name)) => Some(
                        "disconnected "@ + label_of(name, addr),
                    ),
                    JobModel::Remove(addr) => Some("removed "@ + addr.notation()),
                    _ => None,
                }
            },
            None => None,
        }
    }

    /// The job after the reply: on to the refresh where the command is decided,
    /// otherwise on to the next operation.
    pub open spec fn after(self, reply: ReplyModel) -> JobModel {
        if self.status(reply) is Some {
            JobModel::Refreshing
        } else {
            match self {
                JobModel::Connect(addr, stage) => JobModel::Connect(
                    addr,
                    match stage {
                        ConnectStage::Opening => ConnectStage::Checking,
                        ConnectStage::Checking => if reply == ReplyModel::Paired(true) {
                            ConnectStage::Trusting
                        } else {
                            ConnectStage::Pairing
                        },
                        ConnectStage::Pairing => ConnectStage::Trusting,
                        ConnectStage::Trusting => ConnectStage::Connecting,
                        ConnectStage::Connecting => ConnectStage::Naming,
                        ConnectStage::Naming => ConnectStage::Naming,
                    },
                ),
                JobModel::Disconnect(addr, DisconnectModel::Opening) => JobModel::Disconnect(
                    addr,
                    DisconnectModel::Naming,
                ),
                JobModel::Disconnect(addr, _) => JobModel::Disconnect(
                    addr,
                    DisconnectModel::Disconnecting(reply.name()),
                ),
                _ => JobModel::Finished,
            }
        }
    }
}

/// The job that has decided its command, and the status line to show.
fn decided(status: String) -> (out: (Job, Option<String>))
    ensures
        out.0.deep_view() == JobModel::Refreshing,
        out.1.deep_view() == Some(status@),
{
    (Job::Refreshing, Some(status))
}

/// The job whose command has failed, and the status line to show.
fn failed(command: Command, why: &str) -> (out: (Job, Option<String>))
    ensures
        out.0.deep_view() == JobModel::Refreshing,
        out.1.deep_view() == Some(failure_status(command, why@)),
{
    let mut status = command.describe();
    status.append(" failed: ");
    status.append(why);
    decided(status)
}

/// The name that was read, if any.
fn name_in(reply: Reply) -> (name: Option<String>)
    ensures
        name.deep_view() == reply.deep_view().name(),
{
    match reply {
        Reply::Name(name) => name,
        _ => None,
    }
}

impl Job {
    /// A job for a command, before its first operation.
    pub fn start(command: Command) -> (job: Job)
        ensures
            job.deep_view() == job_for(command),
            job.deep_view().request() == Some(
                match command {
                    Command::Connect(addr) => Request::Open(addr),
                    Command::Disconnect(addr) => Request::Open(addr),
                    Command::Remove(addr) => Request::Remove(addr),
                },
            ),
    {
        match command {
            Command::Connect(addr) => Job::Connect(addr, ConnectStage::Opening),
            Command::Disconnect(addr) => Job::Disconnect(addr, DisconnectStage::Opening),
            Command::Remove(addr) => Job::Remove(addr),
        }
    }

    /// The operation that the job waits for; none once it is finished.
    pub fn request(&self) -> (request: Option<Request>)
        ensures
            request == self.deep_view().request(),
    {
        match self {
            Job::Connect(addr, stage) => Some(
                match stage {
                    ConnectStage::Opening => Request::Open(*addr),
                    ConnectStage::Checking => Request::CheckPaired,
                    ConnectStage::Pairing => Request::Pair,
                    ConnectStage::Trusting => Request::Trust,
                    ConnectStage::Connecting => Request::Connect,
                    ConnectStage::Naming => Request::ReadName,
                },
            ),
            Job::Disconnect(addr, stage) => Some(
                match stage {
                    DisconnectStage::Opening => Request::Open(*addr),
                    DisconnectStage::Naming => Request::ReadName,
                    DisconnectStage::Disconnecting(_) => Request::Disconnect,
                },
            ),
            Job::Remove(addr) => Some(Request::Remove(*addr)),
            Job::Refreshing => Some(Request::Publish),
            Job::Finished => None,
        }
    }

    /// Whether the job waits for what `reply` replies to.
    pub fn expects(&self, reply: &Reply) -> (expected: bool)
        ensures
            expected == self.deep_view().awaits(reply.deep_view()),
    {
        match self.request() {
            Some(request) => match reply {
                Reply::Failed(_) => !matches!(request, Request::Publish),
                Reply::Paired(_) => matches!(request, Request::CheckPaired),
                Reply::Name(_) => matches!(request, Request::ReadName),
                Reply::Done => !matches!(request, Request::CheckPaired | Request::ReadName),
            },
            None => false,
        }
    }

    /// Pair (if needed), trust, connect, and say so.
    fn connect_smart(addr: Address, stage: ConnectStage, reply: Reply) -> (out: (
        Job,
        Option<String>,
    ))
        requires
            JobModel::Connect(addr, stage).awaits(reply.deep_view()),
        ensures
            out.0.deep_view() == JobModel::Connect(addr, stage).after(reply.deep_view()),
            out.1.deep_view() == JobModel::Connect(addr, stage).status(reply.deep_view()),
    {
        let command = Command::Connect(addr);
        match stage {
            ConnectStage::Opening => match reply {
                Reply::Failed(why) => failed(command, why.as_str()),
                _ => (Job::Connect(addr, ConnectStage::Checking), None),
            },
            ConnectStage::Checking => match reply {
                Reply::Failed(why) => failed(command, why.as_str()),
                Reply::Paired(true) => (Job::Connect(addr, ConnectStage::Trusting), None),
                _ => (Job::Connect(addr, ConnectStage::Pairing), None),
            },
            ConnectStage::Pairing => match reply {
                Reply::Failed(why) => failed(command, why.as_str()),
                _ => (Job::Connect(addr, ConnectStage::Trusting), None),
            },
            // Trusting lets the device reconnect on its own next time; a device
            // that cannot be trusted is connected all the same.
            ConnectStage::Trusting => (Job::Connect(addr, ConnectStage::Connecting), None),
            ConnectStage::Connecting => match reply {
                Reply::Failed(why) => failed(command, why.as_str()),
                _ => (Job::Connect(addr, ConnectStage::Naming), None),
            },
            ConnectStage::Naming => decided(
                concat_texts("connected ", label(&name_in(reply), addr).as_str()),
            ),
        }
    }

    /// Read the name, disconnect, and say so.
    fn disconnect(addr: Address, stage: DisconnectStage, reply: Reply) -> (out: (
        Job,
        Option<String>,
    ))
        requires
            JobModel::Disconnect(addr, stage.deep_view()).awaits(reply.deep_view()),
        ensures
            out.0.deep_view() == JobModel::Disconnect(addr, stage.deep_view()).after(
                reply.deep_view(),
            ),
            out.1.deep_view() == JobModel::Disconnect(addr, stage.deep_view()).status(
                reply.deep_view(),
            ),
    {
        let command = Command::Disconnect(addr);
        match stage {
            DisconnectStage::Opening => match reply {
                Reply::Failed(why) => failed(command, why.as_str()),
                _ => (Job::Disconnect(addr, DisconnectStage::Naming), None),
            },
            DisconnectStage::Naming => {
                let name = name_in(reply);
                (Job::Disconnect(addr, DisconnectStage::Disconnecting(name)), None)
            },
            DisconnectStage::Disconnecting(name) => match reply {
                Reply::Failed(why) => failed(command, why.as_str()),
                _ => decided(concat_texts("disconnected ", label(&name, addr).as_str())),
            },
        }
    }

    /// Unpair and forget the device, and say so.
    fn remove(addr: Address, reply: Reply) -> (out: (Job, Option<String>))
        requires
            JobModel::Remove(addr).awaits(reply.deep_view()),
        ensures
            out.0.deep_view() == JobModel::Remove(addr).after(reply.deep_view()),
            out.1.deep_view() == JobModel::Remove(addr).status(reply.deep_view()),
    {
        match reply {
            Reply::Failed(why) => failed(Command::Remove(addr), why.as_str()),
            _ => decided(concat_texts("removed ", address_text(addr).as_str())),
        }
    }

    /// The job after the reply to the operation that it waited for, and the status
    /// line to show for it, if any.
    pub fn resume(self, reply: Reply) -> (out: (Job, Option<String>))
        requires
            self.deep_view().awaits(reply.deep_view()),
        ensures
            out.0.deep_view() == self.deep_view().after(reply.deep_view()),
            out.1.deep_view() == self.deep_view().status(reply.deep_view()),
    {
        match self {
            Job::Connect(addr, stage) => Job::connect_smart(addr, stage, reply),
            Job::Disconnect(addr, stage) => Job::disconnect(addr, stage, reply),
            Job::Remove(addr) => Job::remove(addr, reply),
            Job::Refreshing | Job::Finished => (Job::Finished, None),
        }
    }
}

/// The job after a run of replies.
pub open spec fn after_all(job: JobModel, replies: Seq<ReplyModel>) -> JobModel
    decreases replies.len(),
{
    if replies.len() == 0 {
        job
    } else {
        after_all(job, replies.drop_last()).after(replies.last())
    }
}

/// Whether each of a run of replies is one that the job waits for at that point.
pub open spec fn awaits_all(job: JobModel, replies: Seq<ReplyModel>) -> bool
    decreases replies.len(),
{
    replies.len() > 0 ==> awaits_all(job, replies.drop_last()) && after_all(
        job,
        replies.drop_last(),
    ).awaits(replies.last())
}

/// The operations that a job asks for over a run of replies.
pub open spec fn requests_made(job: JobModel, replies: Seq<ReplyModel>) -> Seq<Request>
    decreases replies.len(),
{
    if replies.len() == 0 {
        Seq::empty()
    } else {
        let earlier = requests_made(job, replies.drop_last());
        match after_all(job, replies.drop_last()).request() {
            Some(request) => earlier.push(request),
            None => earlier,
        }
    }
}

/// The status lines that a job shows over a run of replies.
pub open spec fn statuses_shown(job: JobModel, replies: Seq<ReplyModel>) -> Seq<Seq<char>>
    decreases replies.len(),
{
    if replies.len() == 0 {
        Seq::empty()
    } else {
        let earlier = statuses_shown(job, replies.drop_last());
        match after_all(job, replies.drop_last()).status(replies.last()) {
            Some(status) => earlier.push(status),
            None => earlier,
        }
    }
}

/// How many operations a job can still ask for.
pub open spec fn operations_left(job: JobModel) -> int {
    match job {
        JobModel::Connect(_, stage) => match stage {
            ConnectStage::Opening => 7,
            ConnectStage::Checking => 6,
            ConnectStage::Pairing => 5,
            ConnectStage::Trusting => 4,
            ConnectStage::Connecting => 3,
            ConnectStage::Naming => 2,
        },
        JobModel::Disconnect(_, stage) => match stage {
            DisconnectModel::Opening => 4,
            DisconnectModel::Naming => 3,
            DisconnectModel::Disconnecting(_) => 2,
        },
        JobModel::Remove(_) => 2,
        JobModel::Refreshing => 1,
        JobModel::Finished => 0,
    }
}

/// Each reply uses up one operation or more.
proof fn operations_run_down(job: JobModel, replies: Seq<ReplyModel>)
    requires
        awaits_all(job, replies),
    ensures
        0 <= operations_left(after_all(job, replies)) <= operations_left(job) - replies.len(),
    decreases replies.len(),
{
    if replies.len() > 0 {
        operations_run_down(job, replies.drop_last());
    }
}

/// Every job ends: whatever the replies, a connect takes at most seven of them, a
/// disconnect four and a removal two.
pub proof fn jobs_end(command: Command, replies: Seq<ReplyModel>)
    requires
        awaits_all(job_for(command), replies),
    ensures
        replies.len() <= match command {
            Command::Connect(_) => 7int,
            Command::Disconnect(_) => 4,
            Command::Remove(_) => 2,
        },
{
    operations_run_down(job_for(command), replies);
}

/// An unfinished job always waits for an operation, and goes on with whatever comes
/// of it.
pub proof fn jobs_go_on(job: JobModel)
    requires
        !(job is Finished),
    ensures
        job.request() is Some,
        forall|reply: ReplyModel| #[trigger] job.awaits(reply) ==> operations_left(
            job.after(reply),
        ) < operations_left(job),
{
}

/// One more reply to a run.
proof fn one_more_reply(job: JobModel, replies: Seq<ReplyModel>, reply: ReplyModel)
    ensures
        ({
            let longer = replies.push(reply);
            let before = after_all(job, replies);
            &&& after_all(job, longer) == before.after(reply)
            &&& awaits_all(job, longer) == (awaits_all(job, replies) && before.awaits(reply))
            &&& requests_made(job, longer) == match before.request() {
                Some(request) => requests_made(job, replies).push(request),
                None => requests_made(job, replies),
            }
            &&& statuses_shown(job, longer) == match before.status(reply) {
                Some(status) => statuses_shown(job, replies).push(status),
                None => statuses_shown(job, replies),
            }
        }),
{
    assert(replies.push(reply).drop_last() =~= replies);
}

/// Connecting a paired device opens it, checks that it is paired, trusts it,
/// connects it, reads its name, says that it is connected and refreshes. Whether
/// trusting or reading the name worked makes no difference but for the name shown.
pub proof fn connecting_a_paired_device(addr: Address, trust: ReplyModel, name: ReplyModel)
    requires
        trust.answers(Request::Trust),
        name.answers(Request::ReadName),
    ensures
        ({
            let job = job_for(Command::Connect(addr));
            let replies = seq![
                ReplyModel::Done,
                ReplyModel::Paired(true),
                trust,
                ReplyModel::Done,
                name,
                ReplyModel::Done,
            ];
            &&& awaits_all(job, replies)
            &&& requests_made(job, replies) == seq![
                Request::Open(addr),
                Request::CheckPaired,
                Request::Trust,
                Request::Connect,
                Request::ReadName,
                Request::Publish,
            ]
            &&& statuses_shown(job, replies) == seq![
                "connected "@ + match name {
                    ReplyModel::Name(Some(name)) => name,
                    _ => addr.notation(),
                },
            ]
            &&& after_all(job, replies) is Finished
        }),
{
    let job = job_for(Command::Connect(addr));
    let none = Seq::<ReplyModel>::empty();
    let opened = none.push(ReplyModel::Done);
    let checked = opened.push(ReplyModel::Paired(true));
    let trusted = checked.push(trust);
    let connected = trusted.push(ReplyModel::Done);
    let named = connected.push(name);
    one_more_reply(job, none, ReplyModel::Done);
    one_more_reply(job, opened, ReplyModel::Paired(true));
    one_more_reply(job, checked, trust);
    one_more_reply(job, trusted, ReplyModel::Done);
    one_more_reply(job, connected, name);
    one_more_reply(job, named, ReplyModel::Done);
    assert(named.push(ReplyModel::Done) =~= seq![
        ReplyModel::Done,
        ReplyModel::Paired(true),
        trust,
        ReplyModel::Done,
        name,
        ReplyModel::Done,
    ]);
}

/// Connecting a device that is not paired does the same with pairing before
/// trusting.
pub proof fn connecting_an_unpaired_device(addr: Address, trust: ReplyModel, name: ReplyModel)
    requires
        trust.answers(Request::Trust),
        name.answers(Request::ReadName),
    ensures
        ({
            let job = job_for(Command::Connect(addr));
            let replies = seq![
                ReplyModel::Done,
                ReplyModel::Paired(false),
                ReplyModel::Done,
                trust,
                ReplyModel::Done,
                name,
                ReplyModel::Done,
            ];
            &&& awaits_all(job, replies)
            &&& requests_made(job, replies) == seq![
                Request::Open(addr),
                Request::CheckPaired,
                Request::Pair,
                Request::Trust,
                Request::Connect,
                Request::ReadName,
                Request::Publish,
            ]
            &&& statuses_shown(job, replies) == seq![
                "connected "@ + match name {
                    ReplyModel::Name(Some(name)) => name,
                    _ => addr.notation(),
                },
            ]
            &&& after_all(job, replies) is Finished
        }),
{
    let job = job_for(Command::Connect(addr));
    let none = Seq::<ReplyModel>::empty();
    let opened = none.push(ReplyModel::Done);
    let checked = opened.push(ReplyModel::Paired(false));
    let paired = checked.push(ReplyModel::Done);
    let trusted = paired.push(trust);
    let connected = trusted.push(ReplyModel::Done);
    let named = connected.push(name);
    one_more_reply(job, none, ReplyModel::Done);
    one_more_reply(job, opened, ReplyModel::Paired(false));
    one_more_reply(job, checked, ReplyModel::Done);
    one_more_reply(job, paired, trust);
    one_more_reply(job, trusted, ReplyModel::Done);
    one_more_reply(job, connected, name);
    one_more_reply(job, named, ReplyModel::Done);
    assert(named.push(ReplyModel::Done) =~= seq![
        ReplyModel::Done,
        ReplyModel::Paired(false),
        ReplyModel::Done,
        trust,
        ReplyModel::Done,
        name,
        ReplyModel::Done,
    ]);
}

/// Disconnecting opens the device, reads its name, disconnects it, says so and
/// refreshes.
pub proof fn disconnecting_a_device(addr: Address, name: ReplyModel)
    requires
        name.answers(Request::ReadName),
    ensures
        ({
            let job = job_for(Command::Disconnect(addr));
            let replies = seq![ReplyModel::Done, name, ReplyModel::Done, ReplyModel::Done];
            &&& awaits_all(job, replies)
            &&& requests_made(job, replies) == seq![
                Request::Open(addr),
                Request::ReadName,
                Request::Disconnect,
                Request::Publish,
            ]
            &&& statuses_shown(job, replies) == seq![
                "disconnected "@ + match name {
                    ReplyModel::Name(Some(name)) => name,
                    _ => addr.notation(),
                },
            ]
            &&& after_all(job, replies) is Finished
        }),
{
    let job = job_for(Command::Disconnect(addr));
    let none = Seq::<ReplyModel>::empty();
    let opened = none.push(ReplyModel::Done);
    let named = opened.push(name);
    let disconnected = named.push(ReplyModel::Done);
    one_more_reply(job, none, ReplyModel::Done);
    one_more_reply(job, opened, name);
    one_more_reply(job, named, ReplyModel::Done);
    one_more_reply(job, disconnected, ReplyModel::Done);
    assert(disconnected.push(ReplyModel::Done) =~= seq![
        ReplyModel::Done,
        name,
        ReplyModel::Done,
        ReplyModel::Done,
    ]);
}

/// Removing asks for the removal at once, says so and refreshes.
pub proof fn removing_a_device(addr: Address)
    ensures
        ({
            let job = job_for(Command::Remove(addr));
            let replies = seq![ReplyModel::Done, ReplyModel::Done];
            &&& awaits_all(job, replies)
            &&& requests_made(job, replies) == seq![Request::Remove(addr), Request::Publish]
            &&& statuses_shown(job, replies) == seq!["removed "@ + addr.notation()]
            &&& after_all(job, replies) is Finished
        }),
{
    let job = job_for(Command::Remove(addr));
    let none = Seq::<ReplyModel>::empty();
    let removed = none.push(ReplyModel::Done);
    one_more_reply(job, none, ReplyModel::Done);
    one_more_reply(job, removed, ReplyModel::Done);
    assert(removed.push(ReplyModel::Done) =~= seq![ReplyModel::Done, ReplyModel::Done]);
}

/// Whatever the replies, a job carries out the command that it was started for and
/// no other.
pub proof fn jobs_keep_their_command(command: Command, replies: Seq<ReplyModel>)
    ensures
        ({
            let job = after_all(job_for(command), replies);
            job is Refreshing || job is Finished || match command {
                Command::Connect(addr) => job matches JobModel::Connect(own, _) && own == addr,
                Command::Disconnect(addr) => job matches JobModel::Disconnect(own, _) && own
                    == addr,
                Command::Remove(addr) => job matches JobModel::Remove(own) && own == addr,
            }
        }),
    decreases replies.len(),
{
    if replies.len() > 0 {
        jobs_keep_their_command(command, replies.drop_last());
    }
}

/// Whatever the replies, disconnecting never asks to remove the device or to pair
/// it, so that a paired device stays paired; connecting never asks to remove or to
/// disconnect it; removing asks for the removal and the refresh only. Every address
/// asked for is that of the command.
pub proof fn jobs_ask_only_what_the_command_needs(command: Command, replies: Seq<ReplyModel>)
    ensures
        match after_all(job_for(command), replies).request() {
            None => true,
            Some(Request::Open(addr)) => command == Command::Connect(addr) || command
                == Command::Disconnect(addr),
            Some(Request::CheckPaired) => command is Connect,
            Some(Request::Pair) => command is Connect,
            Some(Request::Trust) => command is Connect,
            Some(Request::Connect) => command is Connect,
            Some(Request::ReadName) => !(command is Remove),
            Some(Request::Disconnect) => command is Disconnect,
            Some(Request::Remove(addr)) => command == Command::Remove(addr),
            Some(Request::Publish) => true,
        },
{
    jobs_keep_their_command(command, replies);
}

/// In every state of every job: where the operation at hand is opening the device,
/// checking whether it is paired, pairing, connecting, disconnecting or removing it,
/// its failure fails the command. The status line names the command and the error,
/// and the refresh comes next.
pub proof fn failed_operations_fail_the_command(job: JobModel, why: Seq<char>)
    requires
        job.request() matches Some(request) && (request is Open || request is CheckPaired
            || request is Pair || request is Connect || request is Disconnect || request is Remove),
    ensures
        job.awaits(ReplyModel::Failed(why)),
        job.after(ReplyModel::Failed(why)).request() == Some(Request::Publish),
        job.after(ReplyModel::Failed(why)) is Refreshing,
        job matches JobModel::Connect(addr, _) ==> job.status(ReplyModel::Failed(why)) == Some(
            "Connect("@ + addr.notation() + ") failed: "@ + why,
        ),
        job matches JobModel::Disconnect(addr, _) ==> job.status(ReplyModel::Failed(why)) == Some(
            "Disconnect("@ + addr.notation() + ") failed: "@ + why,
        ),
        job matches JobModel::Remove(addr) ==> job.status(ReplyModel::Failed(why)) == Some(
            "Remove("@ + addr.notation() + ") failed: "@ + why,
        ),
{
    let addr = job.command()->0.addr();
    command_notation_in_full(addr);
    reveal_strlit(")");
    reveal_strlit(" failed: ");
    reveal_strlit(") failed: ");
    assert(") failed: "@ =~= ")"@ + " failed: "@);
    assert(job.status(ReplyModel::Failed(why))->0 =~= job.command()->0.verb() + "("@
        + addr.notation() + ") failed: "@ + why);
}

/// Whatever came before, the failure of an operation other than trusting the device
/// or reading its name ends the command with one more status line, which names the
/// command that the job was started for and the error.
pub proof fn failures_are_reported(command: Command, replies: Seq<ReplyModel>, why: Seq<char>)
    requires
        after_all(job_for(command), replies).request() matches Some(request) && (request is Open
            || request is CheckPaired || request is Pair || request is Connect
            || request is Disconnect || request is Remove),
    ensures
        ({
            let longer = replies.push(ReplyModel::Failed(why));
            &&& after_all(job_for(command), longer) is Refreshing
            &&& statuses_shown(job_for(command), longer) == statuses_shown(
                job_for(command),
                replies,
            ).push(
                match command {
                    Command::Connect(addr) => "Connect("@ + addr.notation() + ") failed: "@ + why,
                    Command::Disconnect(addr) => "Disconnect("@ + addr.notation() + ") failed: "@
                        + why,
                    Command::Remove(addr) => "Remove("@ + addr.notation() + ") failed: "@ + why,
                },
            )
        }),
{
    jobs_keep_their_command(command, replies);
    failed_operations_fail_the_command(after_all(job_for(command), replies), why);
    one_more_reply(job_for(command), replies, ReplyModel::Failed(why));
}

/// A device is connected though it could not be trusted, and a command goes on
/// without the name where it could not be read.
pub proof fn trust_and_name_may_fail(job: JobModel, why: Seq<char>)
    ensures
        job.request() == Some(Request::Trust) ==> {
            &&& job.awaits(ReplyModel::Failed(why))
            &&& job.awaits(ReplyModel::Done)
            &&& job.after(ReplyModel::Failed(why)) == job.after(ReplyModel::Done)
            &&& job.status(ReplyModel::Failed(why)) is None
        },
        job.request() == Some(Request::ReadName) ==> {
            &&& job.awaits(ReplyModel::Failed(why))
            &&& job.awaits(ReplyModel::Name(None))
            &&& job.after(ReplyModel::Failed(why)) == job.after(ReplyModel::Name(None))
            &&& job.status(ReplyModel::Failed(why)) == job.status(ReplyModel::Name(None))
        },
{
}

/// Every command shows one status line: none before it is decided, one from then
/// on; and a finished job has refreshed the snapshot after showing it.
pub proof fn jobs_show_one_status(command: Command, replies: Seq<ReplyModel>)
    requires
        awaits_all(job_for(command), replies),
    ensures
        ({
            let job = after_all(job_for(command), replies);
            &&& statuses_shown(job_for(command), replies).len() == if job is Refreshing
                || job is Finished {
                1nat
            } else {
                0nat
            }
            &&& job is Finished ==> {
                &&& after_all(job_for(command), replies.drop_last()) is Refreshing
                &&& requests_made(job_for(command), replies).last() == Request::Publish
                &&& statuses_shown(job_for(command), replies.drop_last()).len() == 1
            }
        }),
    decreases replies.len(),
{
    if replies.len() > 0 {
        jobs_show_one_status(command, replies.drop_last());
        jobs_keep_their_command(command, replies.drop_last());
    }
}

/// The snapshot is refreshed once, as the last thing: no refresh is asked for
/// before the job is finished, and a finished job has asked for one.
pub proof fn jobs_refresh_once(command: Command, replies: Seq<ReplyModel>)
    requires
        awaits_all(job_for(command), replies),
    ensures
        ({
            let requests = requests_made(job_for(command), replies);
            if after_all(job_for(command), replies) is Finished {
                &&& requests.len() > 0
                &&& requests.last() == Request::Publish
                &&& !requests.drop_last().contains(Request::Publish)
            } else {
                !requests.contains(Request::Publish)
            }
        }),
    decreases replies.len(),
{
    if replies.len() > 0 {
        let job = job_for(command);
        let earlier = requests_made(job, replies.drop_last());
        let before = after_all(job, replies.drop_last());
        jobs_refresh_once(command, replies.drop_last());
        let requests = requests_made(job, replies);
        assert(requests == earlier.push(before.request()->0));
        assert(requests.drop_last() =~= earlier);
        if !(after_all(job, replies) is Finished) && requests.contains(Request::Publish) {
            let k = choose|k: int| 0 <= k < requests.len() && requests[k] == Request::Publish;
            assert(k < earlier.len() ==> earlier[k] == Request::Publish);
        }
    }
}

/// Checking whether the device is paired is answered by saying so, and reading its
/// name by the name. Every other operation is answered by its being done. All may
/// fail but the refresh.
pub proof fn replies_answer_their_requests(reply: ReplyModel, request: Request)
    ensures
        reply.answers(request) <==> match request {
            Request::CheckPaired => reply is Paired || reply is Failed,
            Request::ReadName => reply is Name || reply is Failed,
            Request::Publish => reply is Done,
            _ => reply is Done || reply is Failed,
        },
{
}

/// A job waits for a reply exactly where the reply answers its request.
pub proof fn jobs_await_answers(job: JobModel, reply: ReplyModel)
    ensures
        job.request() is None ==> !job.awaits(reply),
        job.request() matches Some(request) ==> job.awaits(reply) == reply.answers(request),
{
}

/// The model of a reply holds what the reply holds.
pub proof fn reply_model_in_full(reply: Reply)
    ensures
        reply is Done <==> reply.deep_view() is Done,
        reply matches Reply::Paired(paired) ==> reply.deep_view() == ReplyModel::Paired(paired),
        reply matches Reply::Name(Some(name)) ==> reply.deep_view() == ReplyModel::Name(Some(name@)),
        reply matches Reply::Name(None) ==> reply.deep_view() == ReplyModel::Name(None),
        reply matches Reply::Failed(why) ==> reply.deep_view() == ReplyModel::Failed(why@),
{
}

/// Each awaited reply answers one request.
proof fn one_request_per_reply(job: JobModel, replies: Seq<ReplyModel>)
    requires
        awaits_all(job, replies),
    ensures
        requests_made(job, replies).len() == replies.len(),
    decreases replies.len(),
{
    if replies.len() > 0 {
        one_request_per_reply(job, replies.drop_last());
    }
}

/// Whether a request was made and answered by `reply`.
pub open spec fn was_answered(
    job: JobModel,
    replies: Seq<ReplyModel>,
    request: Request,
    reply: ReplyModel,
) -> bool {
    exists|i: int|
        0 <= i < replies.len() && i < requests_made(job, replies).len() && #[trigger] requests_made(
            job,
            replies,
        )[i] == request && replies[i] == reply
}

/// What was answered stays answered.
proof fn answers_stay(
    job: JobModel,
    replies: Seq<ReplyModel>,
    request: Request,
    reply: ReplyModel,
)
    requires
        replies.len() > 0,
        was_answered(job, replies.drop_last(), request, reply),
    ensures
        was_answered(job, replies, request, reply),
{
    let earlier = replies.drop_last();
    let i = choose|i: int|
        0 <= i < earlier.len() && i < requests_made(job, earlier).len()
            && #[trigger] requests_made(job, earlier)[i] == request && earlier[i] == reply;
    assert(requests_made(job, replies)[i] == request);
    assert(replies[i] == reply);
}

/// What is answered now was answered.
proof fn last_answer_counts(job: JobModel, replies: Seq<ReplyModel>, request: Request)
    requires
        replies.len() > 0,
        awaits_all(job, replies),
        after_all(job, replies.drop_last()).request() == Some(request),
    ensures
        was_answered(job, replies, request, replies.last()),
{
    one_request_per_reply(job, replies.drop_last());
    let i = replies.len() - 1;
    assert(requests_made(job, replies)[i] == request);
    assert(replies[i] == replies.last());
}

/// Whether the device was found paired, or was paired.
pub open spec fn pairing_is_done(job: JobModel, replies: Seq<ReplyModel>) -> bool {
    ||| was_answered(job, replies, Request::CheckPaired, ReplyModel::Paired(true))
    ||| was_answered(job, replies, Request::Pair, ReplyModel::Done)
}

/// How far a connect job has come tells what was answered.
proof fn connect_progress(addr: Address, replies: Seq<ReplyModel>)
    requires
        awaits_all(job_for(Command::Connect(addr)), replies),
    ensures
        ({
            let start = job_for(Command::Connect(addr));
            match after_all(start, replies) {
                JobModel::Connect(_, ConnectStage::Trusting) => pairing_is_done(start, replies),
                JobModel::Connect(_, ConnectStage::Connecting) => pairing_is_done(start, replies),
                JobModel::Connect(_, ConnectStage::Naming) => pairing_is_done(start, replies)
                    && was_answered(start, replies, Request::Connect, ReplyModel::Done),
                JobModel::Refreshing => connect_is_told_truly(addr, replies),
                JobModel::Finished => connect_is_told_truly(addr, replies),
                _ => true,
            }
        }),
    decreases replies.len(),
{
    if replies.len() > 0 {
        let start = job_for(Command::Connect(addr));
        let earlier = replies.drop_last();
        let before = after_all(start, earlier);
        connect_progress(addr, earlier);
        jobs_keep_their_command(Command::Connect(addr), earlier);
        jobs_show_one_status(Command::Connect(addr), earlier);
        if let Some(request) = before.request() {
            last_answer_counts(start, replies, request);
        }
        if was_answered(start, earlier, Request::CheckPaired, ReplyModel::Paired(true)) {
            answers_stay(start, replies, Request::CheckPaired, ReplyModel::Paired(true));
        }
        if was_answered(start, earlier, Request::Pair, ReplyModel::Done) {
            answers_stay(start, replies, Request::Pair, ReplyModel::Done);
        }
        if was_answered(start, earlier, Request::Connect, ReplyModel::Done) {
            answers_stay(start, replies, Request::Connect, ReplyModel::Done);
        }
        if before.needs_success() && before.command() is Some && replies.last() is Failed {
            failed_operations_fail_the_command(before, replies.last()->Failed_0);
        }
        if before is Refreshing {
            let shown = statuses_shown(start, earlier);
            if exists|request: Request, why: Seq<char>| #[trigger]
                was_answered(start, earlier, request, ReplyModel::Failed(why)) && (request is Open
                    || request is CheckPaired || request is Pair || request is Connect) && shown[0]
                    == "Connect("@ + addr.notation() + ") failed: "@ + why {
                let (request, why) = choose|request: Request, why: Seq<char>| #[trigger]
                    was_answered(start, earlier, request, ReplyModel::Failed(why)) && (
                    request is Open || request is CheckPaired || request is Pair
                        || request is Connect) && shown[0] == "Connect("@ + addr.notation()
                        + ") failed: "@ + why;
                answers_stay(start, replies, request, ReplyModel::Failed(why));
            }
        }
    }
}

/// Whether the one status line of a connect job is true: either it reports the error
/// that an operation failed with, or the device was found paired or was paired, the
/// connection was made, and the line says so.
pub open spec fn connect_is_told_truly(addr: Address, replies: Seq<ReplyModel>) -> bool {
    let start = job_for(Command::Connect(addr));
    let shown = statuses_shown(start, replies);
    &&& shown.len() == 1
    &&& {
        ||| exists|request: Request, why: Seq<char>| #[trigger]
            was_answered(start, replies, request, ReplyModel::Failed(why)) && (request is Open
                || request is CheckPaired || request is Pair || request is Connect) && shown[0]
                == "Connect("@ + addr.notation() + ") failed: "@ + why
        ||| {
            &&& pairing_is_done(start, replies)
            &&& was_answered(start, replies, Request::Connect, ReplyModel::Done)
            &&& exists|name: Seq<char>| shown[0] == #[trigger] ("connected "@ + name)
        }
    }
}

/// A connect job that has come to its refresh has told the truth.
pub proof fn connecting_is_told_truly(addr: Address, replies: Seq<ReplyModel>)
    requires
        awaits_all(job_for(Command::Connect(addr)), replies),
        after_all(job_for(Command::Connect(addr)), replies).request() == Some(Request::Publish),
    ensures
        connect_is_told_truly(addr, replies),
{
    connect_progress(addr, replies);
    jobs_keep_their_command(Command::Connect(addr), replies);
}

} // verus!
