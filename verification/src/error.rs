//! The errors of the relay: a closed set of kinds, each error with its
//! message and the chain of causes behind it.

use vstd::prelude::*;
use vstd::string::*;

verus! {

/// What went wrong, by the stage at which it did.
#[derive(Clone, Copy, Debug, PartialEq, Eq, Structural)]
pub enum ErrorKind {
    /// Binding, connecting for the first time or preparing the log failed:
    /// the process cannot go on.
    Setup,
    /// Reading, writing or half-closing a stream failed in mid-exchange.
    SessionIo,
    /// The request was read but is no directory path.
    Validation,
    /// The platform did not open the directory.
    Execution,
    /// The peer answered with something other than the success status.
    Protocol,
}

/// An error with its message and the messages of its causes, the nearest
/// cause first.
#[derive(Clone, Debug, PartialEq, Eq)]
pub struct RelayError {
    pub kind: ErrorKind,
    pub message: String,
    pub causes: Vec<String>,
}

/// The mathematical value of a [`RelayError`].
pub struct RelayErrorView {
    pub kind: ErrorKind,
    pub message: Seq<char>,
    pub causes: Seq<Seq<char>>,
}

impl View for RelayError {
    type V = RelayErrorView;

    open spec fn view(&self) -> RelayErrorView {
        RelayErrorView {
            kind: self.kind,
            message: self.message@,
            causes: self.causes.deep_view(),
        }
    }
}

/// The lines that name the causes, one line each, in the order of the chain.
pub open spec fn cause_lines(causes: Seq<Seq<char>>) -> Seq<char>
    decreases causes.len(),
{
    if causes.len() == 0 {
        Seq::empty()
    } else {
        cause_lines(causes.drop_last()) + "- Caused by: "@ + causes.last() + "\n"@
    }
}

/// The full report of an error: a line with its message, then one line for
/// each cause.
pub open spec fn description(error: RelayErrorView) -> Seq<char> {
    "Error: "@ + error.message + "\n"@ + cause_lines(error.causes)
}

/// How a process of the relay ends.
#[derive(Clone, Debug, PartialEq, Eq)]
pub struct ExitReport {
    /// The exit code of the process.
    pub code: i32,
    /// Whether the text belongs on the error stream rather than on the
    /// output stream.
    pub on_error_stream: bool,
    /// What is written before the process exits.
    pub text: String,
}

/// The mathematical value of an [`ExitReport`].
pub struct ExitReportView {
    pub code: int,
    pub on_error_stream: bool,
    pub text: Seq<char>,
}

impl View for ExitReport {
    type V = ExitReportView;

    open spec fn view(&self) -> ExitReportView {
        ExitReportView {
            code: self.code as int,
            on_error_stream: self.on_error_stream,
            text: self.text@,
        }
    }
}

/// The end of a process: code 0 and a closing line on the output stream
/// after a clean shutdown, code 1 and the error with its chain of causes
/// on the error stream after a fatal error.
pub open spec fn exit_report_of(failure: Option<RelayErrorView>) -> ExitReportView {
    match failure {
        None => ExitReportView { code: 0, on_error_stream: false, text: "Program completed!\n"@ },
        Some(error) => ExitReportView { code: 1, on_error_stream: true, text: description(error) },
    }
}

/// The view of the error that ended a run, if one did.
pub open spec fn failure_view(result: Result<(), RelayError>) -> Option<RelayErrorView> {
    match result {
        Ok(_) => None,
        Err(error) => Some(error@),
    }
}

/// Decides how the process ends after a run.
pub fn exit_report(result: &Result<(), RelayError>) -> (report: ExitReport)
    ensures
        report@ == exit_report_of(failure_view(*result)),
{
    match result {
        Ok(_) => ExitReport {
            code: 0,
            on_error_stream: false,
            text: String::from_str("Program completed!\n"),
        },
        Err(error) => ExitReport { code: 1, on_error_stream: true, text: error.describe() },
    }
}

impl RelayError {
    /// An error that stands alone, with no cause behind it.
    pub fn new(kind: ErrorKind, message: String) -> (error: RelayError)
        ensures
            error@ == (RelayErrorView { kind, message: message@, causes: Seq::empty() }),
    {
        let error = RelayError { kind, message, causes: Vec::new() };
        assert(error.causes.deep_view() =~= Seq::empty());
        error
    }

    /// An error that wraps the failure that brought it about.
    pub fn with_cause(kind: ErrorKind, message: String, cause: String) -> (error: RelayError)
        ensures
            error@ == (RelayErrorView { kind, message: message@, causes: seq![cause@] }),
    {
        let mut causes: Vec<String> = Vec::new();
        causes.push(cause);
        let error = RelayError { kind, message, causes };
        assert(error.causes.deep_view() =~= seq![cause@]);
        error
    }

    /// Renders the error with its chain of causes, as it is shown to the
    /// operator when the process gives up.
    pub fn describe(&self) -> (text: String)
        ensures
            text@ == description(self@),
    {
        let mut text = String::from_str("Error: ");
        text.append(self.message.as_str());
        text.append("\n");
        let ghost head = text@;
        let ghost causes = self.causes.deep_view();
        let mut i: usize = 0;
        assert(causes.take(0) =~= Seq::<Seq<char>>::empty());
        while i < self.causes.len()
            invariant
                i <= self.causes.len(),
                causes == self.causes.deep_view(),
                head == "Error: "@ + self.message@ + "\n"@,
                text@ == head + cause_lines(causes.take(i as int)),
            decreases self.causes.len() - i,
        {
            let ghost before = text@;
            text.append("- Caused by: ");
            text.append(self.causes[i].as_str());
            text.append("\n");
            proof {
                let shorter = causes.take(i as int);
                let longer = causes.take(i + 1);
                assert(longer.drop_last() =~= shorter);
                assert(longer.last() == self.causes[i as int]@);
                assert(text@ =~= head + (cause_lines(shorter) + "- Caused by: "@ + longer.last()
                    + "\n"@));
            }
            i = i + 1;
        }
        assert(causes.take(i as int) =~= causes);
        text
    }
}

} // verus!
