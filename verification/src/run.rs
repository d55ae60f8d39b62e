//! A whole run of the command, from its first request to its outcome, in
//! surroundings that are known beforehand.

use vstd::prelude::*;

use crate::answer::answer_of;
use crate::error::ErrorView;
use crate::session::is_interactive;
use crate::session::request_of;
use crate::session::step_of;
use crate::session::EventView;
use crate::session::Phase;
use crate::session::RequestView;
use crate::session::StepView;
use crate::session::DEFAULT_ANSWER;

verus! {

/// All that one run learns from outside.
pub struct World {
    /// Whether standard input is attached to a terminal.
    pub input_terminal: bool,
    /// Whether standard output is attached to a terminal.
    pub output_terminal: bool,
    /// The lines that the user enters, one for each time the question is put.
    pub lines: Seq<Seq<char>>,
    /// What the system reports when it is asked to open an address.
    pub launch: Result<(), Seq<char>>,
}

/// What one run did and how it ended.
pub struct Run {
    /// How the command ended; `None` if the input ran out before the user had
    /// answered.
    pub outcome: Option<Result<(), ErrorView>>,
    /// How many times the question was put.
    pub questions: nat,
    /// The addresses that the system was asked to open, in order.
    pub opened: Seq<Seq<char>>,
}

impl World {
    /// Whether a user can be asked in this world.
    pub open spec fn interactive(self) -> bool {
        is_interactive(self.input_terminal, self.output_terminal)
    }
}

/// The world after the user has entered the next line.
pub open spec fn after_line(world: World) -> World {
    World { lines: world.lines.skip(1), ..world }
}

/// The run of a session that stands in `phase`, when each of its requests is
/// carried out in `world` and answered with what came of it.
pub open spec fn run_from(phase: Phase, world: World) -> Run
    decreases world.lines.len(), phase_rank(phase),
{
    match request_of(phase) {
        RequestView::CheckTerminal => match step_of(
            phase,
            EventView::Terminal { input: world.input_terminal, output: world.output_terminal },
        ) {
            StepView::Done(outcome) => Run { outcome: Some(outcome), questions: 0, opened: seq![] },
            StepView::Next(next) => run_from(next, world),
        },
        RequestView::Confirm { .. } => if world.lines.len() == 0 {
            Run { outcome: None, questions: 1, opened: seq![] }
        } else {
            let rest = match step_of(phase, EventView::Answer(world.lines[0])) {
                StepView::Done(outcome) => Run {
                    outcome: Some(outcome),
                    questions: 0,
                    opened: seq![],
                },
                StepView::Next(next) => run_from(next, after_line(world)),
            };
            Run { questions: rest.questions + 1, ..rest }
        },
        RequestView::Open { url } => {
            let rest = match step_of(phase, EventView::Opened(world.launch)) {
                StepView::Done(outcome) => Run {
                    outcome: Some(outcome),
                    questions: 0,
                    opened: seq![],
                },
                StepView::Next(next) => run_from(next, world),
            };
            Run { opened: seq![url] + rest.opened, ..rest }
        },
    }
}

/// How many requests a session in `phase` has at most before it, not counting
/// repeated questions.
pub open spec fn phase_rank(phase: Phase) -> nat {
    match phase {
        Phase::AwaitingTerminal => 2,
        Phase::AwaitingAnswer => 1,
        Phase::AwaitingLaunch => 0,
    }
}

/// The run of the command in `world`.
pub open spec fn run(world: World) -> Run {
    run_from(Phase::AwaitingTerminal, world)
}

/// What the user decides in the end: the answer of the first line that is one,
/// or `None` if no line is.
pub open spec fn confirmation(lines: Seq<Seq<char>>) -> Option<bool>
    decreases lines.len(),
{
    if lines.len() == 0 {
        None
    } else {
        match answer_of(lines[0], DEFAULT_ANSWER) {
            Some(answer) => Some(answer),
            None => confirmation(lines.skip(1)),
        }
    }
}

/// How many times the user is asked: once for each line up to the first that
/// is an answer, and once more if none is.
pub open spec fn questions_put(lines: Seq<Seq<char>>) -> nat
    decreases lines.len(),
{
    if lines.len() == 0 {
        1
    } else {
        match answer_of(lines[0], DEFAULT_ANSWER) {
            Some(_) => 1,
            None => questions_put(lines.skip(1)) + 1,
        }
    }
}

} // verus!
