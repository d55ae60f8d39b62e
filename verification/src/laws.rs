//! What holds of every run of the command.

use vstd::prelude::*;

use crate::answer::answer_of;
use crate::answer::ascii_lower;
use crate::answer::chomp;
use crate::answer::is_affirmative;
use crate::answer::is_negative;
use crate::answer::words_by_letter;
use crate::error::ErrorView;
use crate::run::after_line;
use crate::run::confirmation;
use crate::run::questions_put;
use crate::run::run;
use crate::run::run_from;
use crate::run::World;
use crate::session::launch_outcome;
use crate::session::Phase;
use crate::session::DEFAULT_ANSWER;
use crate::session::DOCS_URL;

verus! {

/// From the question on, a run is settled by what the user decides: without a
/// decision it ends open, a no aborts it, and a yes has the address opened
/// once and ends as the launch does.
proof fn lemma_run_from_question(world: World)
    ensures
        run_from(Phase::AwaitingAnswer, world).questions == questions_put(world.lines),
        confirmation(world.lines) is None ==> {
            &&& run_from(Phase::AwaitingAnswer, world).outcome is None
            &&& run_from(Phase::AwaitingAnswer, world).opened =~= seq![]
        },
        confirmation(world.lines) == Some(false) ==> {
            &&& run_from(Phase::AwaitingAnswer, world).outcome == Some(
                Err::<(), ErrorView>(ErrorView::Aborted),
            )
            &&& run_from(Phase::AwaitingAnswer, world).opened =~= seq![]
        },
        confirmation(world.lines) == Some(true) ==> {
            &&& run_from(Phase::AwaitingAnswer, world).outcome == Some(
                launch_outcome(world.launch),
            )
            &&& run_from(Phase::AwaitingAnswer, world).opened =~= seq![DOCS_URL@]
        },
    decreases world.lines.len(),
{
    if world.lines.len() > 0 {
        match answer_of(world.lines[0], DEFAULT_ANSWER) {
            Some(true) => {
                assert(run_from(Phase::AwaitingLaunch, after_line(world)).opened =~= seq![
                    DOCS_URL@,
                ]);
            },
            Some(false) => {},
            None => {
                lemma_run_from_question(after_line(world));
            },
        }
    }
}

/// Without an interactive terminal the command fails as non-interactive: the
/// question is never put and nothing is opened, whatever the user would have
/// entered and whatever the launch would have given.
pub proof fn run_without_terminal(world: World)
    requires
        !world.interactive(),
    ensures
        run(world).outcome == Some(Err::<(), ErrorView>(ErrorView::NonInteractive)),
        run(world).questions == 0,
        run(world).opened =~= seq![],
{
}

/// A first line that holds nothing but its terminator takes the default, which
/// is yes: the question is put once, the documentation's address is opened
/// once, and the command ends as the launch does.
pub proof fn run_on_empty_line(world: World)
    requires
        world.interactive(),
        world.lines.len() > 0,
        chomp(world.lines[0]).len() == 0,
    ensures
        run(world).questions == 1,
        run(world).opened =~= seq![DOCS_URL@],
        run(world).outcome == Some(launch_outcome(world.launch)),
{
    lemma_run_from_question(world);
}

/// A first line that says `n` or `no`, in any casing, aborts the command:
/// the question is put once and nothing is opened.
pub proof fn run_on_no(world: World)
    requires
        world.interactive(),
        world.lines.len() > 0,
        is_negative(chomp(world.lines[0])),
    ensures
        run(world).outcome == Some(Err::<(), ErrorView>(ErrorView::Aborted)),
        run(world).questions == 1,
        run(world).opened =~= seq![],
{
    negative_answers_no(world.lines[0], DEFAULT_ANSWER);
    lemma_run_from_question(world);
}

/// A first line that says `y` or `yes`, in any casing, has the documentation's
/// address opened exactly once, and the command succeeds if and only if the
/// launch does.
pub proof fn run_on_yes(world: World)
    requires
        world.interactive(),
        world.lines.len() > 0,
        is_affirmative(chomp(world.lines[0])),
    ensures
        run(world).questions == 1,
        run(world).opened =~= seq![DOCS_URL@],
        run(world).outcome == Some(launch_outcome(world.launch)),
        run(world).outcome == Some(Ok::<(), ErrorView>(())) <==> world.launch is Ok,
{
    affirmative_answers_yes(world.lines[0], DEFAULT_ANSWER);
    lemma_run_from_question(world);
}

/// However often the question had to be put, a user who in the end declines
/// aborts the command, and nothing is opened.
pub proof fn run_declined(world: World)
    requires
        world.interactive(),
        confirmation(world.lines) == Some(false),
    ensures
        run(world).outcome == Some(Err::<(), ErrorView>(ErrorView::Aborted)),
        run(world).opened =~= seq![],
{
    lemma_run_from_question(world);
}

/// However often the question had to be put, a user who in the end confirms
/// has the documentation's address opened exactly once, and the command
/// succeeds if and only if the launch does.
pub proof fn run_confirmed(world: World)
    requires
        world.interactive(),
        confirmation(world.lines) == Some(true),
    ensures
        run(world).opened =~= seq![DOCS_URL@],
        run(world).outcome == Some(launch_outcome(world.launch)),
        run(world).outcome == Some(Ok::<(), ErrorView>(())) <==> world.launch is Ok,
{
    lemma_run_from_question(world);
}

/// A launch that fails makes the confirmed command fail with the launch's own
/// cause, which is neither of the two other failures.
pub proof fn run_launch_failed(world: World, cause: Seq<char>)
    requires
        world.interactive(),
        confirmation(world.lines) == Some(true),
        world.launch == Err::<(), Seq<char>>(cause),
    ensures
        run(world).outcome == Some(Err::<(), ErrorView>(ErrorView::LaunchFailed(cause))),
        run(world).outcome != Some(Err::<(), ErrorView>(ErrorView::NonInteractive)),
        run(world).outcome != Some(Err::<(), ErrorView>(ErrorView::Aborted)),
{
    lemma_run_from_question(world);
}

/// The address is opened if and only if a terminal is attached and the user
/// confirms; it is then the documentation's address, opened once. With a
/// terminal the question is put until a line is an answer, and the command
/// ends unless the input runs out before that.
pub proof fn opened_iff_confirmed(world: World)
    ensures
        run(world).opened =~= (if world.interactive() && confirmation(world.lines) == Some(true) {
            seq![DOCS_URL@]
        } else {
            seq![]
        }),
        run(world).questions == (if world.interactive() {
            questions_put(world.lines)
        } else {
            0
        }),
        run(world).outcome is None <==> world.interactive() && confirmation(world.lines) is None,
{
    lemma_run_from_question(world);
    if world.interactive() {
        match confirmation(world.lines) {
            Some(true) => {},
            Some(false) => {},
            None => {},
        }
    }
}

/// Two runs have nothing in common: when both users confirm, each run opens
/// the address once, and each ends as its own launch does, whatever came of
/// the other.
pub proof fn runs_are_independent(first: World, second: World)
    requires
        first.interactive(),
        confirmation(first.lines) == Some(true),
        second.interactive(),
        confirmation(second.lines) == Some(true),
    ensures
        run(first).opened =~= seq![DOCS_URL@],
        run(second).opened =~= seq![DOCS_URL@],
        run(first).outcome == Some(launch_outcome(first.launch)),
        run(second).outcome == Some(launch_outcome(second.launch)),
{
    lemma_run_from_question(first);
    lemma_run_from_question(second);
}

/// A line whose word is `y` or `yes`, in any casing, answers yes whatever the
/// default is.
pub proof fn affirmative_answers_yes(line: Seq<char>, default: bool)
    requires
        is_affirmative(chomp(line)),
    ensures
        answer_of(line, default) == Some(true),
{
    words_by_letter(chomp(line));
}

/// A line whose word is `n` or `no`, in any casing, answers no whatever the
/// default is.
pub proof fn negative_answers_no(line: Seq<char>, default: bool)
    requires
        is_negative(chomp(line)),
    ensures
        answer_of(line, default) == Some(false),
{
    words_by_letter(chomp(line));
}

/// The default is taken by the empty word alone: a line with a word in it
/// answers the same whatever the default is.
pub proof fn default_only_for_empty_word(line: Seq<char>)
    ensures
        chomp(line).len() == 0 ==> answer_of(line, true) == Some(true) && answer_of(line, false)
            == Some(false),
        chomp(line).len() > 0 ==> answer_of(line, true) == answer_of(line, false),
{
}

/// The case of its letters does not change what a line answers.
pub proof fn answer_ignores_case(a: Seq<char>, b: Seq<char>, default: bool)
    requires
        a.len() == b.len(),
        forall|i: int| 0 <= i < a.len() ==> ascii_lower(#[trigger] a[i]) == ascii_lower(b[i]),
    ensures
        answer_of(a, default) == answer_of(b, default),
{
    let n = a.len() as int;
    if n >= 1 {
        assert(ascii_lower(a[n - 1]) == ascii_lower(b[n - 1]));
    }
    if n >= 2 {
        assert(ascii_lower(a[n - 2]) == ascii_lower(b[n - 2]));
    }
    let wa = chomp(a);
    let wb = chomp(b);
    assert(wa.len() == wb.len());
    assert forall|i: int| 0 <= i < wa.len() implies ascii_lower(#[trigger] wa[i]) == ascii_lower(
        wb[i],
    ) by {
        assert(wa[i] == a[i] && wb[i] == b[i]);
    }
    words_by_letter(wa);
    words_by_letter(wb);
    if 1 <= wa.len() <= 3 {
        assert(ascii_lower(wa[0]) == ascii_lower(wb[0]));
        if wa.len() >= 2 {
            assert(ascii_lower(wa[1]) == ascii_lower(wb[1]));
        }
        if wa.len() >= 3 {
            assert(ascii_lower(wa[2]) == ascii_lower(wb[2]));
        }
    }
}

} // verus!
