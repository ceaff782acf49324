//! The course of one run, from start to exit.
//!
//! A run passes through its stages in one order, `Start`, `ParseArgs`,
//! `BuildPayload`, `Write`, `Done`, and leaves that order only to fail. The
//! stages decide; the surrounding program acts. At `ParseArgs` it reads the
//! flags, at `Write` it writes the payload to the destination, and after
//! each it reports what happened as an [`Event`].

use crate::format::Format;
use crate::payload::{payload, payload_text};
use crate::request::{
    destination_of, guidance_text, request_of, Destination, DestinationView,
    InvocationRequest, RequestView, UsageError,
};
use vstd::prelude::*;

verus! {

/// Why a run failed.
#[derive(Clone, Debug, PartialEq, Eq)]
pub enum Failure {
    /// The command line was refused.
    Usage(UsageError),
    /// The destination could not be opened, written or flushed. `path` is
    /// the file that was being written, `None` for standard output.
    Io { path: Option<String>, cause: String },
}

/// A [`Failure`] as a mathematical value.
pub enum FailureView {
    Usage(UsageError),
    Io { path: Option<Seq<char>>, cause: Seq<char> },
}

impl View for Failure {
    type V = FailureView;

    open spec fn view(&self) -> FailureView {
        match self {
            Failure::Usage(error) => FailureView::Usage(*error),
            Failure::Io { path, cause } => FailureView::Io { path: path.deep_view(), cause: cause@ },
        }
    }
}

/// Where a run stands.
#[derive(Clone, Debug, PartialEq, Eq)]
pub enum Stage {
    /// Nothing has happened yet.
    Start,
    /// The flags are being read.
    ParseArgs,
    /// The request is known and its payload is about to be built.
    BuildPayload(InvocationRequest),
    /// The payload is being written, all of it, to this one destination.
    Write { destination: Destination, payload: String },
    /// The payload was written and flushed.
    Done,
    /// The run failed.
    Failed(Failure),
}

/// A [`Stage`] as a mathematical value.
pub enum StageView {
    Start,
    ParseArgs,
    BuildPayload(RequestView),
    Write { destination: DestinationView, payload: Seq<char> },
    Done,
    Failed(FailureView),
}

impl View for Stage {
    type V = StageView;

    open spec fn view(&self) -> StageView {
        match self {
            Stage::Start => StageView::Start,
            Stage::ParseArgs => StageView::ParseArgs,
            Stage::BuildPayload(request) => StageView::BuildPayload(request@),
            Stage::Write { destination, payload } => StageView::Write {
                destination: destination@,
                payload: payload@,
            },
            Stage::Done => StageView::Done,
            Stage::Failed(failure) => StageView::Failed(failure@),
        }
    }
}

/// What the surrounding program reports back to a run.
#[derive(Clone, Debug, PartialEq, Eq)]
pub enum Event {
    /// Nothing had to be done outside; the run may go on.
    Resume,
    /// The flags were read: the values of `--output` and `--format`, each
    /// `None` where the flag was absent.
    Arguments { output: Option<String>, format: Option<String> },
    /// The flags could not be read.
    Rejected(UsageError),
    /// Every byte of the payload reached the destination and was flushed.
    Written,
    /// Opening, writing or flushing the destination failed.
    WriteFailed { cause: String },
}

/// An [`Event`] as a mathematical value.
pub enum EventView {
    Resume,
    Arguments { output: Option<Seq<char>>, format: Option<Seq<char>> },
    Rejected(UsageError),
    Written,
    WriteFailed { cause: Seq<char> },
}

impl View for Event {
    type V = EventView;

    open spec fn view(&self) -> EventView {
        match self {
            Event::Resume => EventView::Resume,
            Event::Arguments { output, format } => EventView::Arguments {
                output: output.deep_view(),
                format: format.deep_view(),
            },
            Event::Rejected(error) => EventView::Rejected(*error),
            Event::Written => EventView::Written,
            Event::WriteFailed { cause } => EventView::WriteFailed { cause: cause@ },
        }
    }
}

impl StageView {
    /// Whether the run is over.
    pub open spec fn is_terminal(self) -> bool {
        self is Done || self is Failed
    }

    /// How far the run has come. No step lowers it.
    pub open spec fn rank(self) -> nat {
        match self {
            StageView::Start => 0,
            StageView::ParseArgs => 1,
            StageView::BuildPayload(_) => 2,
            StageView::Write { .. } => 3,
            StageView::Done => 4,
            StageView::Failed(_) => 4,
        }
    }

    /// The exit code of the process once the run is over: 0 after success,
    /// 2 after a refused command line, 1 after a failed write.
    pub open spec fn exit_code(self) -> Option<u8> {
        match self {
            StageView::Done => Some(0u8),
            StageView::Failed(FailureView::Usage(_)) => Some(2u8),
            StageView::Failed(FailureView::Io { .. }) => Some(1u8),
            _ => None,
        }
    }

    /// The stage that follows `self` on `event`. Each stage moves on the one
    /// event it waits for and stays where it is on any other; a run that is
    /// over stays over.
    pub open spec fn next(self, event: EventView) -> StageView {
        match (self, event) {
            (StageView::Start, EventView::Resume) => StageView::ParseArgs,
            (StageView::ParseArgs, EventView::Arguments { output, format }) => match request_of(
                output,
                format,
            ) {
                Ok(request) => StageView::BuildPayload(request),
                Err(error) => StageView::Failed(FailureView::Usage(error)),
            },
            (StageView::ParseArgs, EventView::Rejected(error)) => StageView::Failed(
                FailureView::Usage(error),
            ),
            (StageView::BuildPayload(request), EventView::Resume) => StageView::Write {
                destination: destination_of(request.output),
                payload: payload_text(request.format),
            },
            (StageView::Write { .. }, EventView::Written) => StageView::Done,
            (StageView::Write { destination, .. }, EventView::WriteFailed { cause }) => {
                StageView::Failed(FailureView::Io { path: destination.path(), cause })
            },
            _ => self,
        }
    }
}

impl FailureView {
    /// The line that reports the failure on standard error. A failed write
    /// is reported with the path of the file first, then the cause.
    pub open spec fn message(self) -> Seq<char> {
        match self {
            FailureView::Usage(error) => guidance_text(error),
            FailureView::Io { path: Some(path), cause } => path + ": "@ + cause,
            FailureView::Io { path: None, cause } => "standard output: "@ + cause,
        }
    }
}

impl Failure {
    /// The line that reports the failure on standard error.
    pub fn message(&self) -> (r: String)
        ensures
            r@ == self@.message(),
    {
        match self {
            Failure::Usage(error) => String::from_str(error.guidance()),
            Failure::Io { path: Some(path), cause } => {
                String::from_str(path.as_str()).concat(": ").concat(cause.as_str())
            },
            Failure::Io { path: None, cause } => {
                String::from_str("standard output: ").concat(cause.as_str())
            },
        }
    }
}

impl Stage {
    /// Moves the run on by one event.
    pub fn step(self, event: Event) -> (next: Stage)
        ensures
            next@ == self@.next(event@),
    {
        match (self, event) {
            (Stage::Start, Event::Resume) => Stage::ParseArgs,
            (Stage::ParseArgs, Event::Arguments { output, format }) => {
                match InvocationRequest::new(output, format) {
                    Ok(request) => Stage::BuildPayload(request),
                    Err(error) => Stage::Failed(Failure::Usage(error)),
                }
            },
            (Stage::ParseArgs, Event::Rejected(error)) => Stage::Failed(Failure::Usage(error)),
            (Stage::BuildPayload(request), Event::Resume) => {
                let payload = payload(request.format);
                Stage::Write { destination: request.destination(), payload }
            },
            (Stage::Write { .. }, Event::Written) => Stage::Done,
            (Stage::Write { destination, .. }, Event::WriteFailed { cause }) => Stage::Failed(
                Failure::Io { path: destination.path(), cause },
            ),
            (stage, _) => stage,
        }
    }

    /// Whether the run is over.
    pub fn is_terminal(&self) -> (r: bool)
        ensures
            r == self@.is_terminal(),
    {
        match self {
            Stage::Done => true,
            Stage::Failed(_) => true,
            _ => false,
        }
    }

    /// The exit code of the process, once the run is over.
    pub fn exit_code(&self) -> (r: Option<u8>)
        ensures
            r == self@.exit_code(),
    {
        match self {
            Stage::Done => Some(0),
            Stage::Failed(Failure::Usage(_)) => Some(2),
            Stage::Failed(Failure::Io { .. }) => Some(1),
            _ => None,
        }
    }
}

/// No stage is entered twice. A step leaves the run where it is or takes it
/// to a later stage, and a run that is over stays as it ended.
pub proof fn steps_only_advance(stage: StageView, event: EventView)
    ensures
        stage.next(event) == stage || stage.next(event).rank() > stage.rank(),
        stage.is_terminal() ==> stage.next(event) == stage,
{
}

/// A run ends well only by way of its write: `Done` is entered from `Write`,
/// on the report that the payload was written, and from nowhere else. A run
/// that fails before `Write` has asked for no write at all.
pub proof fn done_only_after_write(stage: StageView, event: EventView)
    ensures
        stage.next(event) is Done && !(stage is Done) ==> stage is Write && event is Written,
        stage.next(event) is Write && !(stage is Write) ==> stage is BuildPayload,
{
}

/// An accepted command line leads to exactly one write: of the payload of
/// the chosen format, byte for byte, into the file that `--output` names,
/// or onto standard output where `--output` is absent.
pub proof fn write_follows_the_request(output: Option<Seq<char>>, format: Option<Seq<char>>)
    requires
        request_of(output, format) is Ok,
    ensures
        ({
            let request = request_of(output, format)->Ok_0;
            let write = StageView::ParseArgs.next(EventView::Arguments { output, format }).next(
                EventView::Resume,
            );
            &&& request.output == output
            &&& format is None ==> request.format == Format::Text
            &&& write == StageView::Write {
                destination: destination_of(output),
                payload: payload_text(request.format),
            }
            &&& output is None <==> destination_of(output) is Stdout
            &&& forall|path: Seq<char>|
                output == Some(path) <==> destination_of(output) == DestinationView::File(path)
            &&& write.next(EventView::Written).exit_code() == Some(0u8)
        }),
{
}

/// A `--format` value that names no format fails the run as a usage error,
/// with an exit code other than 0, before any write is asked for; whatever
/// is reported afterwards, the run stays failed.
pub proof fn unrecognized_format_fails(
    output: Option<Seq<char>>,
    value: Seq<char>,
    later: EventView,
)
    requires
        Format::named(value) is None,
    ensures
        ({
            let failed = StageView::ParseArgs.next(
                EventView::Arguments { output, format: Some(value) },
            );
            &&& failed == StageView::Failed(FailureView::Usage(UsageError::MalformedValue))
            &&& failed.exit_code() is Some
            &&& failed.exit_code() != Some(0u8)
            &&& failed.next(later) == failed
        }),
{
}

/// A run has an exit code exactly when it is over, and the code is 0
/// exactly when it ended in `Done`.
pub proof fn exit_code_tells_success(stage: StageView)
    ensures
        stage.exit_code() is Some <==> stage.is_terminal(),
        stage.exit_code() == Some(0u8) <==> stage is Done,
{
}

/// A failed write is reported with the path of the file it was meant for:
/// the path runs through the failure unchanged and opens the message.
pub proof fn failed_write_names_the_path(
    destination: DestinationView,
    payload: Seq<char>,
    cause: Seq<char>,
)
    ensures
        ({
            let failed = (StageView::Write { destination, payload }).next(
                EventView::WriteFailed { cause },
            );
            &&& failed == StageView::Failed(FailureView::Io { path: destination.path(), cause })
            &&& failed.exit_code() == Some(1u8)
            &&& forall|path: Seq<char>|
                destination == DestinationView::File(path) ==> failed->Failed_0.message().subrange(
                    0,
                    path.len() as int,
                ) == path
        }),
{
}

} // verus!
