//! The order in which one read drives the chip select pin and the bus.
//!
//! A read is three hardware steps: the chip select pin is driven low, the bytes
//! of the frame are exchanged over the bus, and the pin is driven high again. The
//! caller performs each step and reports how it went; `Step::next` says what
//! follows. A step that fails ends the read at once: after a failed exchange the
//! pin is not driven high, so it may stay low.

use crate::error::Error;
use vstd::prelude::*;

verus! {

/// One hardware step of a read.
#[derive(Clone, Copy, Debug, PartialEq, Eq)]
pub enum Step {
    /// Drive the chip select pin low, which selects the converter
    DriveLow,
    /// Exchange the bytes of the frame over the bus, in place
    Exchange,
    /// Drive the chip select pin high, which releases the converter
    DriveHigh,
}

/// How a step went.
#[derive(Debug, PartialEq, Eq)]
pub enum Outcome<S, C> {
    /// The step was performed
    Done,
    /// The bus failed with this error
    BusFailed(S),
    /// The chip select pin failed with this error
    PinFailed(C),
}

/// What follows a step.
#[derive(Debug, PartialEq, Eq)]
pub enum Next<S, C> {
    /// The read goes on with this step
    Perform(Step),
    /// The read is over; `Ok` says that the buffer holds a frame
    Finish(Result<(), Error<S, C>>),
}

impl<S, C> Outcome<S, C> {
    /// The outcome that the result of driving the pin stands for.
    pub open spec fn spec_from_pin(result: Result<(), C>) -> Outcome<S, C> {
        match result {
            Ok(_) => Outcome::Done,
            Err(e) => Outcome::PinFailed(e),
        }
    }

    /// The outcome that the result of an exchange over the bus stands for.
    pub open spec fn spec_from_bus(result: Result<(), S>) -> Outcome<S, C> {
        match result {
            Ok(_) => Outcome::Done,
            Err(e) => Outcome::BusFailed(e),
        }
    }

    /// Turns the result of driving the pin into an outcome.
    pub fn from_pin(result: Result<(), C>) -> (outcome: Outcome<S, C>)
        ensures
            outcome == Self::spec_from_pin(result),
    {
        match result {
            Ok(_) => Outcome::Done,
            Err(e) => Outcome::PinFailed(e),
        }
    }

    /// Turns the result of an exchange over the bus into an outcome.
    pub fn from_bus(result: Result<(), S>) -> (outcome: Outcome<S, C>)
        ensures
            outcome == Self::spec_from_bus(result),
    {
        match result {
            Ok(_) => Outcome::Done,
            Err(e) => Outcome::BusFailed(e),
        }
    }
}

impl Step {
    /// What follows this step after `outcome`. A failure ends the read with the error
    /// of the bus or of the pin, unchanged. After a step that was performed comes the
    /// step behind it, and after the last one the read ends well.
    pub open spec fn spec_next<S, C>(self, outcome: Outcome<S, C>) -> Next<S, C> {
        match outcome {
            Outcome::PinFailed(e) => Next::Finish(Err(Error::ChipSelectError(e))),
            Outcome::BusFailed(e) => Next::Finish(Err(Error::SpiError(e))),
            Outcome::Done => match self {
                Step::DriveLow => Next::Perform(Step::Exchange),
                Step::Exchange => Next::Perform(Step::DriveHigh),
                Step::DriveHigh => Next::Finish(Ok(())),
            },
        }
    }

    /// The step that a read starts with.
    pub fn first() -> (step: Step)
        ensures
            step == Step::DriveLow,
    {
        Step::DriveLow
    }

    /// Says what follows this step, given how it went.
    pub fn next<S, C>(self, outcome: Outcome<S, C>) -> (next: Next<S, C>)
        ensures
            next == self.spec_next(outcome),
    {
        match outcome {
            Outcome::PinFailed(e) => Next::Finish(Err(Error::ChipSelectError(e))),
            Outcome::BusFailed(e) => Next::Finish(Err(Error::SpiError(e))),
            Outcome::Done => match self {
                Step::DriveLow => Next::Perform(Step::Exchange),
                Step::Exchange => Next::Perform(Step::DriveHigh),
                Step::DriveHigh => Next::Finish(Ok(())),
            },
        }
    }
}

/// The steps that a read performs from `step` on, in order, when the steps go as
/// `outcomes` say, one outcome for each step performed. Outcomes behind the one that
/// ends the read are not looked at; where they run out, the last step performed has
/// no outcome yet.
pub open spec fn steps_performed<S, C>(step: Step, outcomes: Seq<Outcome<S, C>>) -> Seq<Step>
    decreases outcomes.len(),
{
    if outcomes.len() == 0 {
        seq![step]
    } else {
        match step.spec_next(outcomes[0]) {
            Next::Perform(following) => seq![step] + steps_performed(
                following,
                outcomes.drop_first(),
            ),
            Next::Finish(_) => seq![step],
        }
    }
}

/// How the read that `steps_performed` describes ends; `None` where the outcomes run
/// out before it ends.
pub open spec fn end_of_read<S, C>(step: Step, outcomes: Seq<Outcome<S, C>>) -> Option<
    Result<(), Error<S, C>>,
>
    decreases outcomes.len(),
{
    if outcomes.len() == 0 {
        None
    } else {
        match step.spec_next(outcomes[0]) {
            Next::Perform(following) => end_of_read(following, outcomes.drop_first()),
            Next::Finish(result) => Some(result),
        }
    }
}

/// The three steps of a read in their order.
pub open spec fn all_steps() -> Seq<Step> {
    seq![Step::DriveLow, Step::Exchange, Step::DriveHigh]
}

/// A read never performs a step twice nor out of order: what it performs is the
/// beginning of low, exchange, high.
pub proof fn lemma_steps_in_order<S, C>(outcomes: Seq<Outcome<S, C>>)
    ensures
        steps_performed(Step::DriveLow, outcomes).is_prefix_of(all_steps()),
        1 <= steps_performed(Step::DriveLow, outcomes).len() <= 3,
{
    let steps = steps_performed(Step::DriveLow, outcomes);
    lemma_unfold(Step::DriveLow, outcomes);
    if outcomes.len() > 0 && outcomes[0] is Done {
        let rest = outcomes.drop_first();
        lemma_unfold(Step::Exchange, rest);
        if rest.len() > 0 && rest[0] is Done {
            let last = rest.drop_first();
            lemma_unfold(Step::DriveHigh, last);
            assert(steps =~= all_steps());
        } else {
            assert(steps =~= seq![Step::DriveLow, Step::Exchange]);
        }
    } else {
        assert(steps =~= seq![Step::DriveLow]);
    }
}

/// A read that ends well has driven the pin low once, then exchanged the bytes once,
/// then driven the pin high once, and all three steps were performed.
pub proof fn lemma_read_that_succeeds<S, C>(outcomes: Seq<Outcome<S, C>>)
    requires
        end_of_read(Step::DriveLow, outcomes) == Some(Ok::<(), Error<S, C>>(())),
    ensures
        steps_performed(Step::DriveLow, outcomes) == all_steps(),
        outcomes.len() >= 3,
        outcomes[0] is Done,
        outcomes[1] is Done,
        outcomes[2] is Done,
{
    let steps = steps_performed(Step::DriveLow, outcomes);
    lemma_unfold(Step::DriveLow, outcomes);
    let rest = outcomes.drop_first();
    lemma_unfold(Step::Exchange, rest);
    let last = rest.drop_first();
    lemma_unfold(Step::DriveHigh, last);
    assert(steps =~= all_steps());
}

/// A read whose three steps are all performed ends well.
pub proof fn lemma_read_of_three_steps<S, C>(outcomes: Seq<Outcome<S, C>>)
    requires
        outcomes.len() >= 3,
        outcomes[0] is Done,
        outcomes[1] is Done,
        outcomes[2] is Done,
    ensures
        end_of_read(Step::DriveLow, outcomes) == Some(Ok::<(), Error<S, C>>(())),
        steps_performed(Step::DriveLow, outcomes) == all_steps(),
{
    let steps = steps_performed(Step::DriveLow, outcomes);
    lemma_unfold(Step::DriveLow, outcomes);
    let rest = outcomes.drop_first();
    lemma_unfold(Step::Exchange, rest);
    let last = rest.drop_first();
    lemma_unfold(Step::DriveHigh, last);
    assert(steps =~= all_steps());
}

/// A read whose exchange fails has driven the pin low and never drives it high: it
/// ends with the error of the bus right after the exchange.
pub proof fn lemma_read_with_failed_exchange<S, C>(outcomes: Seq<Outcome<S, C>>, error: S)
    requires
        outcomes.len() >= 2,
        outcomes[0] is Done,
        outcomes[1] == Outcome::<S, C>::BusFailed(error),
    ensures
        steps_performed(Step::DriveLow, outcomes) == seq![Step::DriveLow, Step::Exchange],
        end_of_read(Step::DriveLow, outcomes) == Some(
            Err::<(), Error<S, C>>(Error::SpiError(error)),
        ),
{
    let steps = steps_performed(Step::DriveLow, outcomes);
    lemma_unfold(Step::DriveLow, outcomes);
    let rest = outcomes.drop_first();
    lemma_unfold(Step::Exchange, rest);
    assert(steps =~= seq![Step::DriveLow, Step::Exchange]);
}

/// A read whose first step fails performs nothing else: it ends with the error of
/// the pin, and no byte is exchanged.
pub proof fn lemma_read_with_failed_select<S, C>(outcomes: Seq<Outcome<S, C>>, error: C)
    requires
        outcomes.len() >= 1,
        outcomes[0] == Outcome::<S, C>::PinFailed(error),
    ensures
        steps_performed(Step::DriveLow, outcomes) == seq![Step::DriveLow],
        end_of_read(Step::DriveLow, outcomes) == Some(
            Err::<(), Error<S, C>>(Error::ChipSelectError(error)),
        ),
{
    lemma_unfold(Step::DriveLow, outcomes);
}

proof fn lemma_unfold<S, C>(step: Step, outcomes: Seq<Outcome<S, C>>)
    ensures
        outcomes.len() == 0 ==> steps_performed(step, outcomes) == seq![step] && end_of_read(
            step,
            outcomes,
        ) is None,
        outcomes.len() > 0 ==> match step.spec_next(outcomes[0]) {
            Next::Perform(following) => steps_performed(step, outcomes) == seq![step]
                + steps_performed(following, outcomes.drop_first()) && end_of_read(step, outcomes)
                == end_of_read(following, outcomes.drop_first()),
            Next::Finish(result) => steps_performed(step, outcomes) == seq![step] && end_of_read(
                step,
                outcomes,
            ) == Some(result),
        },
{
}

} // verus!
