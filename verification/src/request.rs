//! The request that one invocation makes: where the payload goes and in
//! which format.

use crate::format::Format;
use vstd::prelude::*;

verus! {

/// Why a command line is refused.
#[derive(Clone, Copy, Debug, PartialEq, Eq, Structural)]
pub enum UsageError {
    /// A flag that the tool does not know.
    UnrecognizedFlag,
    /// A flag at the end of the command line, without the value it takes.
    MissingValue,
    /// A value that its flag cannot take, such as a format that does not
    /// exist.
    MalformedValue,
}

/// The guidance that goes with a refused command line.
pub open spec fn guidance_text(error: UsageError) -> Seq<char> {
    match error {
        UsageError::UnrecognizedFlag => "unrecognized flag: the flags are --output and --format"@,
        UsageError::MissingValue => "missing value: --output takes a path, --format a format"@,
        UsageError::MalformedValue => "malformed value: --format takes text, json or csv"@,
    }
}

impl UsageError {
    /// The guidance that goes with this error.
    pub fn guidance(self) -> (r: &'static str)
        ensures
            r@ == guidance_text(self),
    {
        match self {
            UsageError::UnrecognizedFlag => "unrecognized flag: the flags are --output and --format",
            UsageError::MissingValue => "missing value: --output takes a path, --format a format",
            UsageError::MalformedValue => "malformed value: --format takes text, json or csv",
        }
    }
}

/// One invocation, read and validated.
#[derive(Clone, Debug, PartialEq, Eq)]
pub struct InvocationRequest {
    /// The file to write; standard output when there is none.
    pub output: Option<String>,
    /// The format of the payload.
    pub format: Format,
}

/// An [`InvocationRequest`] as a mathematical value.
pub struct RequestView {
    pub output: Option<Seq<char>>,
    pub format: Format,
}

impl View for InvocationRequest {
    type V = RequestView;

    open spec fn view(&self) -> RequestView {
        RequestView { output: self.output.deep_view(), format: self.format }
    }
}

/// Where the payload is written: into one file, or onto standard output,
/// never both.
#[derive(Clone, Debug, PartialEq, Eq)]
pub enum Destination {
    /// The file at this path, created if it is missing and emptied if it
    /// exists.
    File(String),
    /// The standard output of the process.
    Stdout,
}

/// A [`Destination`] as a mathematical value.
pub enum DestinationView {
    File(Seq<char>),
    Stdout,
}

impl View for Destination {
    type V = DestinationView;

    open spec fn view(&self) -> DestinationView {
        match self {
            Destination::File(path) => DestinationView::File(path@),
            Destination::Stdout => DestinationView::Stdout,
        }
    }
}

impl DestinationView {
    /// The path of the file, if the destination is one.
    pub open spec fn path(self) -> Option<Seq<char>> {
        match self {
            DestinationView::File(path) => Some(path),
            DestinationView::Stdout => None,
        }
    }
}

/// The request that the values of `--output` and `--format` describe. A run
/// without `--format` emits plain text; one with a value that names no
/// format is refused.
pub open spec fn request_of(output: Option<Seq<char>>, format: Option<Seq<char>>) -> Result<
    RequestView,
    UsageError,
> {
    match format {
        None => Ok(RequestView { output, format: Format::Text }),
        Some(value) => match Format::named(value) {
            Some(named) => Ok(RequestView { output, format: named }),
            None => Err(UsageError::MalformedValue),
        },
    }
}

/// The destination of a run with this `--output` value.
pub open spec fn destination_of(output: Option<Seq<char>>) -> DestinationView {
    match output {
        Some(path) => DestinationView::File(path),
        None => DestinationView::Stdout,
    }
}

impl InvocationRequest {
    /// Builds the request from the values that the command line gave to
    /// `--output` and `--format`, each `None` where the flag was absent.
    pub fn new(output: Option<String>, format: Option<String>) -> (r: Result<
        InvocationRequest,
        UsageError,
    >)
        ensures
            match request_of(output.deep_view(), format.deep_view()) {
                Ok(request) => r is Ok && r->Ok_0@ == request,
                Err(error) => r is Err && r->Err_0 == error,
            },
    {
        match format {
            None => Ok(InvocationRequest { output, format: Format::default() }),
            Some(value) => match Format::from_name(value.as_str()) {
                Some(named) => Ok(InvocationRequest { output, format: named }),
                None => Err(UsageError::MalformedValue),
            },
        }
    }

    /// Resolves where the payload of this request goes.
    pub fn destination(self) -> (r: Destination)
        ensures
            r@ == destination_of(self@.output),
    {
        match self.output {
            Some(path) => Destination::File(path),
            None => Destination::Stdout,
        }
    }
}

impl Destination {
    /// The path of the file, if the destination is one.
    pub fn path(self) -> (r: Option<String>)
        ensures
            r.deep_view() == self@.path(),
    {
        match self {
            Destination::File(path) => Some(path),
            Destination::Stdout => None,
        }
    }
}

} // verus!
