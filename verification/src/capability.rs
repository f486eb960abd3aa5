//! The boundary between the decisions of a session and the system around it.
//!
//! Nothing in this crate runs a program or asks the user anything. A manager
//! says what it wants done next, as a `Request`; whoever drives it performs the
//! request and hands back a `Reply`; the manager then says what comes next. An
//! `Attempt` is the smallest such manager: one command, and what its failure
//! leads to.
use crate::block_device::{BTRFSSubVolume, BlockDevice};
use crate::btrfs::{Resolution, SubvolumeListing, SubvolumeResolver};
use crate::luks::CryptTabSource;
use crate::planner::MountTableEntry;
use crate::zfs::{DatasetListing, DatasetsFound, ZFSDataSet};
use vstd::prelude::*;
use vstd::string::*;

verus! {

/// A program to run, with its arguments.
pub struct Command {
    pub program: String,
    pub args: Vec<String>,
}

/// What a `Command` holds, as plain texts.
pub struct CommandView {
    pub program: Seq<char>,
    pub args: Seq<Seq<char>>,
}

impl View for Command {
    type V = CommandView;

    open spec fn view(&self) -> CommandView {
        CommandView { program: self.program@, args: self.args.deep_view() }
    }
}

impl Command {
    /// The command that runs `program` without arguments.
    pub fn new(program: &str) -> (out: Command)
        ensures
            out@ == (CommandView { program: program@, args: seq![] }),
    {
        let out = Command { program: program.to_owned(), args: Vec::new() };
        assert(out.args.deep_view() =~= Seq::<Seq<char>>::empty());
        out
    }

    /// This command with one more argument.
    pub fn arg(self, value: &str) -> (out: Command)
        ensures
            out@ == (CommandView { program: self@.program, args: self@.args.push(value@) }),
    {
        let mut args = self.args;
        let ghost before = args.deep_view();
        args.push(value.to_owned());
        assert(args.deep_view() =~= before.push(value@));
        Command { program: self.program, args }
    }

    /// This command with the arguments `values` after its own.
    pub fn args(self, values: &Vec<String>) -> (out: Command)
        ensures
            out@ == (CommandView { program: self@.program, args: self@.args + values.deep_view() }),
    {
        let mut out = self;
        let mut i: usize = 0;
        let ghost first = out@;
        while i < values.len()
            invariant
                i <= values.len(),
                out@.program == first.program,
                out@.args == first.args + values.deep_view().take(i as int),
            decreases values.len() - i,
        {
            out = out.arg(values[i].as_str());
            i += 1;
        }
        assert(values.deep_view().take(i as int) =~= values.deep_view());
        out
    }
}

impl Clone for Command {
    fn clone(&self) -> (out: Self)
        ensures
            out@ == self@,
    {
        let out = Command::new(self.program.as_str()).args(&self.args);
        out
    }
}

/// The yes-or-no questions that a session puts to the user.
#[derive(Clone, Copy, Debug, PartialEq, Eq, Structural)]
pub enum Question {
    /// A mount failed: skip this partition and go on?
    SkipFailedMount,
    /// A pool could not be imported: force the import?
    ForceImport,
    /// A pool could not be exported: force the export?
    ForceExport,
    /// A key could not be loaded: enter the passphrase again?
    RetryPassphrase,
    /// A subvolume with the customary name of a root exists: use it?
    UseSubvolumePreset,
    /// Mount another partition?
    MountMore,
}

/// Why a session cannot go on.
#[derive(Clone, Copy, Debug, PartialEq, Eq, Structural)]
pub enum Fatal {
    /// A command that the session depends on failed, and nothing else could be tried.
    CommandFailed,
    /// No temporary mount point could be had.
    NoMountPoint,
    /// The subvolumes of a device could not be listed.
    ListingFailed,
    /// The listing of the subvolumes could not be read.
    MalformedListing,
    /// The user made no choice where one was needed.
    NoSelection,
    /// The system lists no storage device at all.
    NoDevices,
    /// The reply does not answer the request that was made.
    UnexpectedReply,
}

/// How an attempt ended, where it did not end the session.
#[derive(Clone, Copy, Debug, PartialEq, Eq, Structural)]
pub enum Outcome {
    /// The command, or its forced or repeated form, succeeded.
    Succeeded,
    /// The command failed and the user chose to go on without it.
    Skipped,
    /// The command failed; the failure is reported and the session goes on.
    Failed,
}

/// What a manager wants done next.
#[allow(inconsistent_fields)]
pub enum Request {
    /// Run the command to its end; the reply is `Status`.
    Run(Command),
    /// Run the command and keep what it prints; the reply is `Output`.
    Capture(Command),
    /// Put the question to the user; the reply is `Answer`. `subject` names
    /// what the question is about, where it is about one thing.
    Confirm { question: Question, subject: String },
    /// Make a fresh directory whose name begins with `prefix`, to mount on;
    /// the reply is `Path`.
    AcquireMountPoint { prefix: String },
    /// Remove the directory that `AcquireMountPoint` made; the reply is `Status`.
    ReleaseMountPoint { path: String },
    /// Drive the attempt to its end; the reply is `Outcome`, unless the
    /// attempt aborts, which ends the session.
    Try(Attempt),
    /// Drive the listing to its end; the reply is `Subvolumes`, unless the
    /// listing aborts, which ends the session.
    List(SubvolumeListing),
    /// Drive the resolution to its end; the reply is `Resolved`, unless the
    /// resolution aborts, which ends the session.
    Resolve(SubvolumeResolver),
    /// Let the user pick one of the subvolumes for the partition `role`; the
    /// reply is `Choice`.
    ChooseSubvolume { role: String, candidates: Vec<BTRFSSubVolume> },
    /// Let the user pick one of the devices for the partition `role`, or, if
    /// `allow_skip` is set, none; the reply is `Choice`.
    ChooseDevice { role: String, candidates: Vec<BlockDevice>, allow_skip: bool },
    /// Run the command, which lists the block devices of the system, and read
    /// what it prints; the reply is `Devices`.
    QueryDevices(Command),
    /// Run the command, which lists the datasets of a pool with their
    /// properties, and read what it prints; the reply is `Datasets`.
    QueryDatasets(Command),
    /// Drive the listing to its end; the reply is `MountableDatasets`, unless
    /// the listing aborts, which ends the session.
    ListDatasets(DatasetListing),
    /// Let the user pick any number of the datasets for the partition `role`;
    /// the reply is `Choices`.
    ChooseDatasets { role: String, candidates: Vec<ZFSDataSet> },
    /// Ask the user at which mount point the next partition goes; the reply
    /// is `Text`.
    EnterMountPoint,
    /// Read the table of key aliases at `path`; the reply is `KeyTable`.
    ReadKeyTable { path: String },
    /// Read the mount table at `path`; the reply is `MountTable`.
    ReadMountTable { path: String },
}

/// What came of a request.
pub enum Reply {
    /// Whether the command ran and succeeded.
    Status(bool),
    /// What the command printed, if it ran.
    Output(Option<String>),
    /// The user's answer: `true` is yes.
    Answer(bool),
    /// The directory that was made, if one was.
    Path(Option<String>),
    /// The index of the candidate that the user picked, if any.
    Choice(Option<usize>),
    /// How an attempt ended.
    Outcome(Outcome),
    /// The subvolumes that a listing found.
    Subvolumes(Vec<BTRFSSubVolume>),
    /// What a resolution arrived at.
    Resolved(Resolution),
    /// The block devices of the system, if they could be listed.
    Devices(Option<Vec<BlockDevice>>),
    /// The datasets of a pool, if they could be listed.
    Datasets(Option<Vec<ZFSDataSet>>),
    /// What a listing of datasets found.
    MountableDatasets(DatasetsFound),
    /// The indices of the candidates that the user picked.
    Choices(Vec<usize>),
    /// What the user entered.
    Text(String),
    /// What there is of the table of key aliases.
    KeyTable(CryptTabSource),
    /// The entries of the mount table, if there is one.
    MountTable(Option<Vec<MountTableEntry>>),
}

/// What an attempt does once its command has failed.
pub enum Recovery {
    /// Nothing: the failure stands.
    GiveUp,
    /// Ask whether to go on without; a yes ends the attempt as skipped.
    OfferSkip,
    /// Ask whether to force it; a yes runs the forced command, once.
    OfferForce(Command),
    /// Ask whether to try again; a yes runs the same command again, as often
    /// as the user says yes.
    OfferRetry,
}

/// Where an attempt stands.
#[derive(Clone, Copy, Debug, PartialEq, Eq, Structural)]
pub enum AttemptStage {
    /// Nothing was requested yet.
    Ready,
    /// The command runs.
    Running,
    /// The command failed and the user is being asked.
    Asking,
    /// The forced command runs.
    Forcing,
    /// The attempt is over.
    Finished,
}

/// The next step of an attempt.
pub enum AttemptStep {
    /// Perform the request and come back with the reply.
    Ask(Request),
    /// The attempt is over and the session goes on.
    Done(Outcome),
    /// The attempt is over and so is the session.
    Abort(Fatal),
}

/// One command and what its failure leads to.
pub struct Attempt {
    /// The command to run.
    pub command: Command,
    /// What a failure of the command leads to.
    pub recovery: Recovery,
    /// The question that the recovery asks.
    pub question: Question,
    /// What the question is about.
    pub subject: String,
    /// Whether a failure that stands ends the session.
    pub fatal: bool,
    pub stage: AttemptStage,
}

/// What an attempt does once its command has failed, as plain values.
pub enum RecoveryView {
    GiveUp,
    OfferSkip,
    OfferForce(CommandView),
    OfferRetry,
}

/// What an `Attempt` holds, as plain values.
pub struct AttemptView {
    pub command: CommandView,
    pub recovery: RecoveryView,
    pub question: Question,
    pub subject: Seq<char>,
    pub fatal: bool,
    pub stage: AttemptStage,
}

impl View for Recovery {
    type V = RecoveryView;

    open spec fn view(&self) -> RecoveryView {
        match self {
            Recovery::GiveUp => RecoveryView::GiveUp,
            Recovery::OfferSkip => RecoveryView::OfferSkip,
            Recovery::OfferForce(forced) => RecoveryView::OfferForce(forced@),
            Recovery::OfferRetry => RecoveryView::OfferRetry,
        }
    }
}

impl View for Attempt {
    type V = AttemptView;

    open spec fn view(&self) -> AttemptView {
        AttemptView {
            command: self.command@,
            recovery: self.recovery@,
            question: self.question,
            subject: self.subject@,
            fatal: self.fatal,
            stage: self.stage,
        }
    }
}

/// The attempt at `command` that has not begun.
pub open spec fn fresh_attempt(
    command: CommandView,
    recovery: RecoveryView,
    question: Question,
    subject: Seq<char>,
    fatal: bool,
) -> AttemptView {
    AttemptView { command, recovery, question, subject, fatal, stage: AttemptStage::Ready }
}

impl Attempt {
    /// Whether `other` is the same attempt at the stage `stage`.
    pub open spec fn moved_to(self, other: Attempt, stage: AttemptStage) -> bool {
        &&& other.command@ == self.command@
        &&& other.recovery == self.recovery
        &&& other.question == self.question
        &&& other.subject@ == self.subject@
        &&& other.fatal == self.fatal
        &&& other.stage == stage
    }

    /// Whether `step` asks to run `command`.
    pub open spec fn runs(step: AttemptStep, command: CommandView) -> bool {
        step matches AttemptStep::Ask(Request::Run(c)) && c@ == command
    }

    /// Whether `step` puts this attempt's question.
    pub open spec fn asks(self, step: AttemptStep) -> bool {
        step matches AttemptStep::Ask(Request::Confirm { question, subject }) && question
            == self.question && subject@ == self.subject@
    }

    /// Whether `step` is how this attempt ends when a failure stands: the
    /// session ends if the attempt is fatal, and goes on with a reported
    /// failure if not.
    pub open spec fn gives_up(self, step: AttemptStep) -> bool {
        if self.fatal {
            step == AttemptStep::Abort(Fatal::CommandFailed)
        } else {
            step == AttemptStep::Done(Outcome::Failed)
        }
    }

    /// The transition of an attempt: from `self` and the reply to the request
    /// made last, to the attempt `next` and its step.
    pub open spec fn transition(self, reply: Reply, next: Attempt, step: AttemptStep) -> bool {
        match (self.stage, reply) {
            (AttemptStage::Running, Reply::Status(true)) | (
                AttemptStage::Forcing,
                Reply::Status(true),
            ) => {
                &&& self.moved_to(next, AttemptStage::Finished)
                &&& step == AttemptStep::Done(Outcome::Succeeded)
            },
            (AttemptStage::Running, Reply::Status(false)) => {
                if self.recovery is GiveUp {
                    &&& self.moved_to(next, AttemptStage::Finished)
                    &&& self.gives_up(step)
                } else {
                    &&& self.moved_to(next, AttemptStage::Asking)
                    &&& self.asks(step)
                }
            },
            (AttemptStage::Forcing, Reply::Status(false)) => {
                &&& self.moved_to(next, AttemptStage::Finished)
                &&& self.gives_up(step)
            },
            (AttemptStage::Asking, Reply::Answer(true)) => {
                match self.recovery {
                    Recovery::OfferSkip => {
                        &&& self.moved_to(next, AttemptStage::Finished)
                        &&& step == AttemptStep::Done(Outcome::Skipped)
                    },
                    Recovery::OfferForce(forced) => {
                        &&& self.moved_to(next, AttemptStage::Forcing)
                        &&& Self::runs(step, forced@)
                    },
                    Recovery::OfferRetry => {
                        &&& self.moved_to(next, AttemptStage::Running)
                        &&& Self::runs(step, self.command@)
                    },
                    Recovery::GiveUp => {
                        &&& self.moved_to(next, AttemptStage::Finished)
                        &&& self.gives_up(step)
                    },
                }
            },
            (AttemptStage::Asking, Reply::Answer(false)) => {
                &&& self.moved_to(next, AttemptStage::Finished)
                &&& self.gives_up(step)
            },
            _ => {
                &&& self.moved_to(next, AttemptStage::Finished)
                &&& step == AttemptStep::Abort(Fatal::UnexpectedReply)
            },
        }
    }

    /// An attempt at `command` that has not begun.
    pub fn new(command: Command, recovery: Recovery, question: Question, subject: &str, fatal: bool) -> (out:
        Attempt)
        ensures
            out.command == command,
            out.recovery == recovery,
            out@ == fresh_attempt(command@, recovery@, question, subject@, fatal),
    {
        Attempt {
            command,
            recovery,
            question,
            subject: subject.to_owned(),
            fatal,
            stage: AttemptStage::Ready,
        }
    }

    /// How an attempt begins: the first step is to run its command. Only an
    /// attempt that has not begun can begin.
    pub open spec fn begins(self, next: Attempt, step: AttemptStep) -> bool {
        if self.stage == AttemptStage::Ready {
            &&& self.moved_to(next, AttemptStage::Running)
            &&& Self::runs(step, self.command@)
        } else {
            &&& self.moved_to(next, AttemptStage::Finished)
            &&& step == AttemptStep::Abort(Fatal::UnexpectedReply)
        }
    }

    /// Begins the attempt.
    pub fn start(&mut self) -> (step: AttemptStep)
        ensures
            old(self).begins(*final(self), step),
    {
        match self.stage {
            AttemptStage::Ready => {
                self.stage = AttemptStage::Running;
                AttemptStep::Ask(Request::Run(self.command.clone()))
            },
            _ => {
                self.stage = AttemptStage::Finished;
                AttemptStep::Abort(Fatal::UnexpectedReply)
            },
        }
    }

    fn give_up(&mut self) -> (step: AttemptStep)
        ensures
            old(self).moved_to(*final(self), AttemptStage::Finished),
            old(self).gives_up(step),
    {
        self.stage = AttemptStage::Finished;
        if self.fatal {
            AttemptStep::Abort(Fatal::CommandFailed)
        } else {
            AttemptStep::Done(Outcome::Failed)
        }
    }

    /// Takes the reply to the request made last and says what comes next.
    pub fn resume(&mut self, reply: Reply) -> (step: AttemptStep)
        ensures
            old(self).transition(reply, *final(self), step),
    {
        match (self.stage, reply) {
            (AttemptStage::Running, Reply::Status(true)) | (
                AttemptStage::Forcing,
                Reply::Status(true),
            ) => {
                self.stage = AttemptStage::Finished;
                AttemptStep::Done(Outcome::Succeeded)
            },
            (AttemptStage::Running, Reply::Status(false)) => {
                match &self.recovery {
                    Recovery::GiveUp => self.give_up(),
                    _ => {
                        self.stage = AttemptStage::Asking;
                        AttemptStep::Ask(
                            Request::Confirm {
                                question: self.question,
                                subject: self.subject.clone(),
                            },
                        )
                    },
                }
            },
            (AttemptStage::Forcing, Reply::Status(false)) => self.give_up(),
            (AttemptStage::Asking, Reply::Answer(true)) => {
                match &self.recovery {
                    Recovery::OfferSkip => {
                        self.stage = AttemptStage::Finished;
                        AttemptStep::Done(Outcome::Skipped)
                    },
                    Recovery::OfferForce(forced) => {
                        let run = forced.clone();
                        self.stage = AttemptStage::Forcing;
                        AttemptStep::Ask(Request::Run(run))
                    },
                    Recovery::OfferRetry => {
                        self.stage = AttemptStage::Running;
                        AttemptStep::Ask(Request::Run(self.command.clone()))
                    },
                    Recovery::GiveUp => self.give_up(),
                }
            },
            (AttemptStage::Asking, Reply::Answer(false)) => self.give_up(),
            _ => {
                self.stage = AttemptStage::Finished;
                AttemptStep::Abort(Fatal::UnexpectedReply)
            },
        }
    }
}

/// An attempt succeeds only on the word of the command: it ends as
/// succeeded only after a reply that its command, or the forced one, ran and
/// succeeded.
pub proof fn lemma_success_is_reported(
    attempt: Attempt,
    reply: Reply,
    next: Attempt,
    step: AttemptStep,
)
    requires
        attempt.transition(reply, next, step),
        step == AttemptStep::Done(Outcome::Succeeded),
    ensures
        reply == Reply::Status(true),
        attempt.stage == AttemptStage::Running || attempt.stage == AttemptStage::Forcing,
{
}

/// A failure is escalated only after the one way out that the attempt has
/// was offered: an attempt that offers to skip, to force or to retry never
/// gives up on the failure of its command without having asked, and a forced
/// command is run once and not asked about again.
pub proof fn lemma_one_offer_before_giving_up(
    attempt: Attempt,
    reply: Reply,
    next: Attempt,
    step: AttemptStep,
)
    requires
        attempt.transition(reply, next, step),
    ensures
        attempt.stage == AttemptStage::Running && reply == Reply::Status(false)
            && !(attempt.recovery is GiveUp) ==> attempt.asks(step) && next.stage
            == AttemptStage::Asking,
        attempt.stage == AttemptStage::Forcing ==> next.stage == AttemptStage::Finished,
        attempt.stage == AttemptStage::Asking && reply == Reply::Answer(false)
            ==> attempt.gives_up(step),
{
}

} // verus!
