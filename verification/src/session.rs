//! The command as a session: it asks for one thing at a time and decides, from
//! what it is told, how to go on.

use vstd::prelude::*;

use crate::answer::answer_of;
use crate::answer::interpret_answer;
use crate::error::DocsError;
use crate::error::ErrorView;

verus! {

/// The address of the documentation.
pub const DOCS_URL: &'static str = "https://docs.railway.app/";

/// The question put to the user before anything is opened.
pub const QUESTION: &'static str = "Open the browser?";

/// The answer that is taken when the user enters nothing.
pub const DEFAULT_ANSWER: bool = true;

/// The arguments of the command: it takes none.
#[derive(Debug, Clone, Copy, PartialEq, Eq)]
pub struct Args {}

/// How far a session has come: what it is waiting to be told.
#[derive(Debug, Clone, Copy, PartialEq, Eq)]
pub enum Phase {
    /// Waiting to learn whether an interactive terminal is attached.
    AwaitingTerminal,
    /// Waiting for the user's answer to the question.
    AwaitingAnswer,
    /// Waiting to learn whether the address could be opened.
    AwaitingLaunch,
}

/// One run of the command. A session has exactly one request outstanding at
/// any time; it can only be obtained from [`command`], so the request to open
/// the address is reached through the terminal check and the confirmation and
/// in no other way.
#[derive(Debug)]
pub struct Session {
    phase: Phase,
}

/// What a session asks its caller to do.
#[derive(Debug, Clone, Copy, PartialEq, Eq)]
pub enum Request {
    /// Find out whether standard input and standard output are attached to
    /// a terminal.
    CheckTerminal,
    /// Show `question`, read one line of input and report it. `default` is the
    /// answer that an empty line stands for.
    Confirm { question: &'static str, default: bool },
    /// Have the system open `url` with its default application.
    Open { url: &'static str },
}

/// A request with its texts as sequences of characters.
pub enum RequestView {
    CheckTerminal,
    Confirm { question: Seq<char>, default: bool },
    Open { url: Seq<char> },
}

impl View for Request {
    type V = RequestView;

    open spec fn view(&self) -> RequestView {
        match self {
            Request::CheckTerminal => RequestView::CheckTerminal,
            Request::Confirm { question, default } => RequestView::Confirm {
                question: question@,
                default: *default,
            },
            Request::Open { url } => RequestView::Open { url: url@ },
        }
    }
}

/// What the caller reports back after carrying out a request.
#[derive(Debug, PartialEq, Eq)]
pub enum Event {
    /// Whether standard input is attached to a terminal, and whether
    /// standard output is.
    Terminal { input: bool, output: bool },
    /// The line that the user entered, with or without its line terminator.
    /// The end of the input is no line, and no event.
    Answer(String),
    /// Whether the address was opened; on failure, the cause as text.
    Opened(Result<(), String>),
}

/// An event with its texts as sequences of characters.
pub enum EventView {
    Terminal { input: bool, output: bool },
    Answer(Seq<char>),
    Opened(Result<(), Seq<char>>),
}

impl View for Event {
    type V = EventView;

    open spec fn view(&self) -> EventView {
        match self {
            Event::Terminal { input, output } => EventView::Terminal {
                input: *input,
                output: *output,
            },
            Event::Answer(line) => EventView::Answer(line@),
            Event::Opened(Ok(())) => EventView::Opened(Ok(())),
            Event::Opened(Err(cause)) => EventView::Opened(Err(cause@)),
        }
    }
}

/// What a session has come to after an event.
#[derive(Debug)]
pub enum Step {
    /// The command goes on: the session has a request outstanding.
    Next(Session),
    /// The command is over, with this outcome.
    Done(Result<(), DocsError>),
}

/// A step with the session as its phase and the texts as sequences of
/// characters.
pub enum StepView {
    Next(Phase),
    Done(Result<(), ErrorView>),
}

impl View for Step {
    type V = StepView;

    open spec fn view(&self) -> StepView {
        match self {
            Step::Next(session) => StepView::Next(session@),
            Step::Done(Ok(())) => StepView::Done(Ok(())),
            Step::Done(Err(e)) => StepView::Done(Err(e@)),
        }
    }
}

/// The request that is outstanding in a phase.
pub open spec fn request_of(phase: Phase) -> RequestView {
    match phase {
        Phase::AwaitingTerminal => RequestView::CheckTerminal,
        Phase::AwaitingAnswer => RequestView::Confirm {
            question: QUESTION@,
            default: DEFAULT_ANSWER,
        },
        Phase::AwaitingLaunch => RequestView::Open { url: DOCS_URL@ },
    }
}

/// Whether a user can be asked: the question is written to standard output
/// and the answer is read from standard input, so both have to be attached to
/// a terminal.
pub open spec fn is_interactive(input: bool, output: bool) -> bool {
    input && output
}

/// How the command ends once the system has tried to open the address: it
/// succeeds if the launch did, and fails with the launch's cause if not.
pub open spec fn launch_outcome(launch: Result<(), Seq<char>>) -> Result<(), ErrorView> {
    match launch {
        Ok(()) => Ok(()),
        Err(cause) => Err(ErrorView::LaunchFailed(cause)),
    }
}

/// The step that an event brings about in a phase.
///
/// Without an interactive terminal the command fails at once. With one, the
/// user is asked until a line is an answer: yes leads to the launch, no ends the
/// command. The launch's result ends it either way. An event that does not
/// answer the outstanding request changes nothing.
pub open spec fn step_of(phase: Phase, event: EventView) -> StepView {
    match (phase, event) {
        (Phase::AwaitingTerminal, EventView::Terminal { input, output }) => if is_interactive(
            input,
            output,
        ) {
            StepView::Next(Phase::AwaitingAnswer)
        } else {
            StepView::Done(Err(ErrorView::NonInteractive))
        },
        (Phase::AwaitingAnswer, EventView::Answer(line)) => match answer_of(
            line,
            DEFAULT_ANSWER,
        ) {
            Some(true) => StepView::Next(Phase::AwaitingLaunch),
            Some(false) => StepView::Done(Err(ErrorView::Aborted)),
            None => StepView::Next(Phase::AwaitingAnswer),
        },
        (Phase::AwaitingLaunch, EventView::Opened(launch)) => StepView::Done(
            launch_outcome(launch),
        ),
        _ => StepView::Next(phase),
    }
}

impl View for Session {
    type V = Phase;

    closed spec fn view(&self) -> Phase {
        self.phase
    }
}

/// Begins the command. Nothing has been checked, asked or opened yet: the
/// session's first request is the terminal check.
pub fn command(_args: Args, _json: bool) -> (session: Session)
    ensures
        session@ == Phase::AwaitingTerminal,
{
    Session { phase: Phase::AwaitingTerminal }
}

impl Session {
    /// What the session is waiting to be told.
    pub fn phase(&self) -> (phase: Phase)
        ensures
            phase == self@,
    {
        self.phase
    }

    /// The outstanding request: what the caller is to do next.
    pub fn request(&self) -> (request: Request)
        ensures
            request@ == request_of(self@),
    {
        match self.phase {
            Phase::AwaitingTerminal => Request::CheckTerminal,
            Phase::AwaitingAnswer => Request::Confirm {
                question: QUESTION,
                default: DEFAULT_ANSWER,
            },
            Phase::AwaitingLaunch => Request::Open { url: DOCS_URL },
        }
    }

    /// Takes what the caller reports and decides how the command goes on.
    pub fn step(self, event: Event) -> (step: Step)
        ensures
            step@ == step_of(self@, event@),
    {
        match (self.phase, event) {
            (Phase::AwaitingTerminal, Event::Terminal { input, output }) => {
                if input && output {
                    Step::Next(Session { phase: Phase::AwaitingAnswer })
                } else {
                    Step::Done(Err(DocsError::NonInteractive))
                }
            },
            (Phase::AwaitingAnswer, Event::Answer(line)) => {
                match interpret_answer(line.as_str(), DEFAULT_ANSWER) {
                    Some(true) => Step::Next(Session { phase: Phase::AwaitingLaunch }),
                    Some(false) => Step::Done(Err(DocsError::Aborted)),
                    None => Step::Next(Session { phase: Phase::AwaitingAnswer }),
                }
            },
            (Phase::AwaitingLaunch, Event::Opened(launch)) => {
                match launch {
                    Ok(()) => Step::Done(Ok(())),
                    Err(cause) => Step::Done(Err(DocsError::LaunchFailed(cause))),
                }
            },
            (phase, _) => Step::Next(Session { phase }),
        }
    }
}

} // verus!
