//! The conversion pipeline as a machine from state and event to next state
//! and action. A driver performs each action and reports what came of it.
use vstd::prelude::*;
use vstd::string::StringExecFns;
use crate::naming::ArtifactPaths;
use crate::request::Conversion;
use crate::shape::{ShapeTable, UrlShape, first_match};

verus! {

/// Why a request was turned away before any work was done.
#[derive(Clone, Copy, Debug, PartialEq, Eq, Structural)]
pub enum RejectReason {
    MissingInput,
    UnsupportedUrl,
}

/// Which step of the work failed.
#[derive(Clone, Copy, Debug, PartialEq, Eq, Structural)]
pub enum FailureKind {
    Io,
    SessionUnavailable,
    Navigation,
    WaitTimeout,
    Capture,
    Compile,
}

/// How a request ends.
pub enum Outcome {
    Compiled(Vec<u8>),
    Rejected(RejectReason),
    /// The failed step, with the diagnostic it gave where there was one.
    Failed(FailureKind, Option<String>),
}

/// Status reported for a produced document.
pub const STATUS_CREATED: u16 = 201;

/// Status reported for every request that produced no document.
pub const STATUS_BAD_REQUEST: u16 = 400;

pub open spec fn status_of(o: Outcome) -> u16 {
    match o {
        Outcome::Compiled(_) => STATUS_CREATED,
        _ => STATUS_BAD_REQUEST,
    }
}

pub open spec fn reject_text(r: RejectReason) -> Seq<char> {
    match r {
        RejectReason::MissingInput => "No url or html body found"@,
        RejectReason::UnsupportedUrl => "unsupported url: it matches no known page shape"@,
    }
}

pub open spec fn failure_text(k: FailureKind) -> Seq<char> {
    match k {
        FailureKind::Io => "file operation failed"@,
        FailureKind::SessionUnavailable => "browser automation session could not be opened"@,
        FailureKind::Navigation => "page navigation failed"@,
        FailureKind::WaitTimeout => "wait condition not met: the page did not render the expected content"@,
        FailureKind::Capture => "rendered markup could not be captured"@,
        FailureKind::Compile => "rendering engine failed"@,
    }
}

/// The plain-text message reported for an outcome; empty for a document.
pub open spec fn message_of(o: Outcome) -> Seq<char> {
    match o {
        Outcome::Compiled(_) => Seq::empty(),
        Outcome::Rejected(r) => reject_text(r),
        Outcome::Failed(k, None) => failure_text(k),
        Outcome::Failed(k, Some(d)) => failure_text(k) + ": "@ + d@,
    }
}

fn reject_str(r: RejectReason) -> (s: &'static str)
    ensures
        s@ == reject_text(r),
{
    match r {
        RejectReason::MissingInput => {
            proof { reveal_strlit("No url or html body found"); }
            "No url or html body found"
        },
        RejectReason::UnsupportedUrl => {
            proof { reveal_strlit("unsupported url: it matches no known page shape"); }
            "unsupported url: it matches no known page shape"
        },
    }
}

fn failure_str(k: FailureKind) -> (s: &'static str)
    ensures
        s@ == failure_text(k),
{
    match k {
        FailureKind::Io => {
            proof { reveal_strlit("file operation failed"); }
            "file operation failed"
        },
        FailureKind::SessionUnavailable => {
            proof { reveal_strlit("browser automation session could not be opened"); }
            "browser automation session could not be opened"
        },
        FailureKind::Navigation => {
            proof { reveal_strlit("page navigation failed"); }
            "page navigation failed"
        },
        FailureKind::WaitTimeout => {
            proof {
                reveal_strlit("wait condition not met: the page did not render the expected content");
            }
            "wait condition not met: the page did not render the expected content"
        },
        FailureKind::Capture => {
            proof { reveal_strlit("rendered markup could not be captured"); }
            "rendered markup could not be captured"
        },
        FailureKind::Compile => {
            proof { reveal_strlit("rendering engine failed"); }
            "rendering engine failed"
        },
    }
}

impl Outcome {
    /// The transport status: created for a document, bad request otherwise.
    pub fn status(&self) -> (r: u16)
        ensures
            r == status_of(*self),
    {
        match self {
            Outcome::Compiled(_) => STATUS_CREATED,
            _ => STATUS_BAD_REQUEST,
        }
    }

    pub fn message(&self) -> (r: String)
        ensures
            r@ == message_of(*self),
    {
        match self {
            Outcome::Compiled(_) => String::new(),
            Outcome::Rejected(r) => String::from_str(reject_str(*r)),
            Outcome::Failed(k, d) => {
                let mut s = String::from_str(failure_str(*k));
                match d {
                    Some(d) => {
                        s.append(": ");
                        s.append(d.as_str());
                        proof { reveal_strlit(": "); }
                    },
                    None => {},
                }
                s
            },
        }
    }
}

/// Work for the driver.
pub enum Action {
    /// Open a browser-automation session.
    OpenSession,
    /// Load this URL in the open session.
    Navigate(String),
    /// Wait until an element matching this selector exists.
    AwaitElement(String),
    /// Report the markup of the loaded page.
    CaptureMarkup,
    /// Close the session, whatever state it is in.
    CloseSession,
    /// Create or truncate the file at the path, then write the text to it.
    WriteMarkup(String, String),
    /// Run the rendering engine on the markup file, writing the document file.
    Compile(String, String),
    /// Report the whole contents of the file at the path.
    ReadOutput(String),
    /// Remove both files; failures to remove are ignored.
    Cleanup(String, String),
}

/// What came of the last action.
pub enum Event {
    Done,
    Markup(String),
    Document(Vec<u8>),
    Failed(String),
}

/// What a finished engine process reports: success only on a clean exit;
/// otherwise a failure that carries the process's diagnostic output.
pub fn engine_event(exited_ok: bool, diagnostic: String) -> (e: Event)
    ensures
        exited_ok ==> e == Event::Done,
        !exited_ok ==> e == Event::Failed(diagnostic),
{
    if exited_ok {
        Event::Done
    } else {
        Event::Failed(diagnostic)
    }
}

/// Where a conversion stands: which action is awaiting its event.
pub enum Stage {
    /// Session requested; holds the URL and the selector to wait for.
    Opening(String, String),
    /// Navigation requested; holds the selector to wait for.
    Navigating(String),
    Waiting,
    Capturing,
    /// Close requested; holds the captured markup, or the failure to report.
    Closing(Result<String, (FailureKind, Option<String>)>),
    Writing,
    Compiling,
    Reading,
    /// Cleanup requested; holds the outcome to report afterwards.
    Cleaning(Outcome),
}

/// One conversion in progress, with the scratch paths it owns.
pub struct Pipeline {
    pub paths: ArtifactPaths,
    pub stage: Stage,
}

/// Either the next state and its action, or the end of the conversion.
pub enum Step {
    Next(Pipeline, Action),
    Finish(Outcome),
}

/// Requests cleanup of both scratch files, then reports `o`.
pub open spec fn clean_then(paths: ArtifactPaths, o: Outcome) -> Step {
    Step::Next(
        Pipeline { paths, stage: Stage::Cleaning(o) },
        Action::Cleanup(paths.html_file_name, paths.pdf_file_name),
    )
}

/// Requests that the session be closed, then goes on with `res`.
pub open spec fn close_then(
    paths: ArtifactPaths,
    res: Result<String, (FailureKind, Option<String>)>,
) -> Step {
    Step::Next(Pipeline { paths, stage: Stage::Closing(res) }, Action::CloseSession)
}

/// The first step of a conversion.
pub open spec fn begin_spec(c: Conversion, paths: ArtifactPaths, shapes: Seq<UrlShape>) -> Step {
    match c {
        Conversion::Markup(t) => Step::Next(
            Pipeline { paths, stage: Stage::Writing },
            Action::WriteMarkup(paths.html_file_name, t),
        ),
        Conversion::Source(u) => match first_match(shapes, u@) {
            Some(i) => Step::Next(
                Pipeline { paths, stage: Stage::Opening(u, shapes[i].selector) },
                Action::OpenSession,
            ),
            None => Step::Finish(Outcome::Rejected(RejectReason::UnsupportedUrl)),
        },
        Conversion::Invalid => Step::Finish(Outcome::Rejected(RejectReason::MissingInput)),
    }
}

/// The step that follows event `e` in state `p`.
pub open spec fn advance(p: Pipeline, e: Event) -> Step {
    let paths = p.paths;
    match p.stage {
        Stage::Opening(url, sel) => match e {
            Event::Failed(m) => clean_then(
                paths,
                Outcome::Failed(FailureKind::SessionUnavailable, Some(m)),
            ),
            _ => Step::Next(Pipeline { paths, stage: Stage::Navigating(sel) }, Action::Navigate(url)),
        },
        Stage::Navigating(sel) => match e {
            Event::Failed(m) => close_then(paths, Err((FailureKind::Navigation, Some(m)))),
            _ => Step::Next(Pipeline { paths, stage: Stage::Waiting }, Action::AwaitElement(sel)),
        },
        Stage::Waiting => match e {
            Event::Failed(m) => close_then(paths, Err((FailureKind::WaitTimeout, Some(m)))),
            _ => Step::Next(Pipeline { paths, stage: Stage::Capturing }, Action::CaptureMarkup),
        },
        Stage::Capturing => match e {
            Event::Markup(t) => close_then(paths, Ok(t)),
            Event::Failed(m) => close_then(paths, Err((FailureKind::Capture, Some(m)))),
            _ => close_then(paths, Err((FailureKind::Capture, None))),
        },
        Stage::Closing(res) => match res {
            Ok(t) => Step::Next(
                Pipeline { paths, stage: Stage::Writing },
                Action::WriteMarkup(paths.html_file_name, t),
            ),
            Err((k, d)) => clean_then(paths, Outcome::Failed(k, d)),
        },
        Stage::Writing => match e {
            Event::Failed(m) => clean_then(paths, Outcome::Failed(FailureKind::Io, Some(m))),
            _ => Step::Next(
                Pipeline { paths, stage: Stage::Compiling },
                Action::Compile(paths.html_file_name, paths.pdf_file_name),
            ),
        },
        Stage::Compiling => match e {
            Event::Failed(m) => clean_then(paths, Outcome::Failed(FailureKind::Compile, Some(m))),
            _ => Step::Next(
                Pipeline { paths, stage: Stage::Reading },
                Action::ReadOutput(paths.pdf_file_name),
            ),
        },
        Stage::Reading => match e {
            Event::Document(b) => clean_then(paths, Outcome::Compiled(b)),
            Event::Failed(m) => clean_then(paths, Outcome::Failed(FailureKind::Io, Some(m))),
            _ => clean_then(paths, Outcome::Failed(FailureKind::Io, None)),
        },
        Stage::Cleaning(o) => Step::Finish(o),
    }
}

fn clean_step(paths: ArtifactPaths, o: Outcome) -> (r: Step)
    ensures
        r == clean_then(paths, o),
{
    let a = Action::Cleanup(paths.html_file_name.clone(), paths.pdf_file_name.clone());
    Step::Next(Pipeline { paths, stage: Stage::Cleaning(o) }, a)
}

/// Starts a conversion on the scratch paths `paths`. A request without
/// input, or with a URL that fits no known shape, ends at once.
pub fn begin(c: Conversion, paths: ArtifactPaths, table: &ShapeTable) -> (r: Step)
    ensures
        r == begin_spec(c, paths, table@),
{
    match c {
        Conversion::Markup(t) => {
            let a = Action::WriteMarkup(paths.html_file_name.clone(), t);
            Step::Next(Pipeline { paths, stage: Stage::Writing }, a)
        },
        Conversion::Source(u) => match table.classify(u.as_str()) {
            Some(i) => {
                let sel = table.get(i).selector.clone();
                Step::Next(Pipeline { paths, stage: Stage::Opening(u, sel) }, Action::OpenSession)
            },
            None => Step::Finish(Outcome::Rejected(RejectReason::UnsupportedUrl)),
        },
        Conversion::Invalid => Step::Finish(Outcome::Rejected(RejectReason::MissingInput)),
    }
}

impl Pipeline {
    /// Takes the event that the last action gave and decides what comes next.
    pub fn step(self, e: Event) -> (r: Step)
        ensures
            r == advance(self, e),
    {
        let paths = self.paths;
        match self.stage {
            Stage::Opening(url, sel) => match e {
                Event::Failed(m) => clean_step(
                    paths,
                    Outcome::Failed(FailureKind::SessionUnavailable, Some(m)),
                ),
                _ => Step::Next(
                    Pipeline { paths, stage: Stage::Navigating(sel) },
                    Action::Navigate(url),
                ),
            },
            Stage::Navigating(sel) => match e {
                Event::Failed(m) => Step::Next(
                    Pipeline {
                        paths,
                        stage: Stage::Closing(Err((FailureKind::Navigation, Some(m)))),
                    },
                    Action::CloseSession,
                ),
                _ => Step::Next(
                    Pipeline { paths, stage: Stage::Waiting },
                    Action::AwaitElement(sel),
                ),
            },
            Stage::Waiting => match e {
                Event::Failed(m) => Step::Next(
                    Pipeline {
                        paths,
                        stage: Stage::Closing(Err((FailureKind::WaitTimeout, Some(m)))),
                    },
                    Action::CloseSession,
                ),
                _ => Step::Next(Pipeline { paths, stage: Stage::Capturing }, Action::CaptureMarkup),
            },
            Stage::Capturing => {
                let res = match e {
                    Event::Markup(t) => Ok(t),
                    Event::Failed(m) => Err((FailureKind::Capture, Some(m))),
                    _ => Err((FailureKind::Capture, None)),
                };
                Step::Next(Pipeline { paths, stage: Stage::Closing(res) }, Action::CloseSession)
            },
            Stage::Closing(res) => match res {
                Ok(t) => {
                    let a = Action::WriteMarkup(paths.html_file_name.clone(), t);
                    Step::Next(Pipeline { paths, stage: Stage::Writing }, a)
                },
                Err((k, d)) => clean_step(paths, Outcome::Failed(k, d)),
            },
            Stage::Writing => match e {
                Event::Failed(m) => clean_step(paths, Outcome::Failed(FailureKind::Io, Some(m))),
                _ => {
                    let a = Action::Compile(
                        paths.html_file_name.clone(),
                        paths.pdf_file_name.clone(),
                    );
                    Step::Next(Pipeline { paths, stage: Stage::Compiling }, a)
                },
            },
            Stage::Compiling => match e {
                Event::Failed(m) => clean_step(
                    paths,
                    Outcome::Failed(FailureKind::Compile, Some(m)),
                ),
                _ => {
                    let a = Action::ReadOutput(paths.pdf_file_name.clone());
                    Step::Next(Pipeline { paths, stage: Stage::Reading }, a)
                },
            },
            Stage::Reading => match e {
                Event::Document(b) => clean_step(paths, Outcome::Compiled(b)),
                Event::Failed(m) => clean_step(paths, Outcome::Failed(FailureKind::Io, Some(m))),
                _ => clean_step(paths, Outcome::Failed(FailureKind::Io, None)),
            },
            Stage::Cleaning(o) => Step::Finish(o),
        }
    }
}

} // verus!
