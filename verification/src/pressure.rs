//! The sensor driver: start-up over the bus, then calibrated readings.

use crate::bus::{BusCommand, BusEvent, ADDR_PRESSURE_SENSOR};
use crate::error::PressureError;
use crate::raw::{decode, raw_reading, RAW_MAX, RAW_MIN};
use crate::scale::{scale, scaled, PRESSURE_CEILING, PRESSURE_SCALING_FACTOR};
use vstd::prelude::*;

verus! {

/// A sensor that has been brought up.
///
/// It holds the baseline: the raw reading taken once, at the end of start-up,
/// against which every later reading is measured.
#[derive(Debug, PartialEq, Eq)]
pub struct Pressure {
    baseline: i32,
}

/// The step of start-up whose command is outstanding.
#[derive(Clone, Copy, Debug, PartialEq, Eq)]
pub enum Phase {
    /// The bus is being opened.
    Opening,
    /// The open channel is being pointed at the sensor.
    Addressing,
    /// The first reading is being taken.
    Sampling,
}

/// Where start-up stands once the bus has answered.
#[derive(Debug, PartialEq, Eq)]
pub enum Progress {
    /// The step succeeded; the command of this phase is due next.
    Continue(Phase),
    /// Start-up is complete.
    Ready(Pressure),
    /// Start-up has failed for good. There is no sensor, and nothing to resume.
    Failed(PressureError),
}

/// `Progress` with a sensor stood for by its baseline.
pub enum ProgressView {
    Continue(Phase),
    Ready(int),
    Failed(PressureError),
}

impl View for Progress {
    type V = ProgressView;

    open spec fn view(&self) -> ProgressView {
        match *self {
            Progress::Continue(phase) => ProgressView::Continue(phase),
            Progress::Ready(sensor) => ProgressView::Ready(sensor.baseline() as int),
            Progress::Failed(error) => ProgressView::Failed(error),
        }
    }
}

/// The raw reading that an answer to a `Read` command delivers.
pub open spec fn sample(event: BusEvent) -> Result<int, PressureError> {
    match event {
        BusEvent::Received(b0, b1) => Ok(raw_reading(b0, b1)),
        _ => Err(PressureError::ReadFailure),
    }
}

/// The calibrated value that an answer to a `Read` command amounts to for a
/// sensor with this baseline.
pub open spec fn reading(baseline: int, event: BusEvent) -> Result<int, PressureError> {
    match sample(event) {
        Ok(raw) => Ok(
            scaled(raw, baseline, PRESSURE_SCALING_FACTOR as int, PRESSURE_CEILING as int),
        ),
        Err(error) => Err(error),
    }
}

/// One step of start-up: what follows when the command of `phase` is answered by `event`.
pub open spec fn init_step(phase: Phase, event: BusEvent) -> ProgressView {
    match phase {
        Phase::Opening => match event {
            BusEvent::Completed => ProgressView::Continue(Phase::Addressing),
            _ => ProgressView::Failed(PressureError::BusUnavailable),
        },
        Phase::Addressing => match event {
            BusEvent::Completed => ProgressView::Continue(Phase::Sampling),
            _ => ProgressView::Failed(PressureError::ConfigurationError),
        },
        Phase::Sampling => match sample(event) {
            Ok(raw) => ProgressView::Ready(raw),
            Err(error) => ProgressView::Failed(error),
        },
    }
}

/// Where start-up stands when, from `phase` on, the bus has answered the
/// commands one after another with `events`.
///
/// Start-up ends with the first answer that completes or fails it; answers
/// after that one are not looked at.
pub open spec fn init_run(phase: Phase, events: Seq<BusEvent>) -> ProgressView
    decreases events.len(),
{
    if events.len() == 0 {
        ProgressView::Continue(phase)
    } else {
        match init_step(phase, events.first()) {
            ProgressView::Continue(next) => init_run(next, events.drop_first()),
            ended => ended,
        }
    }
}

impl Phase {
    /// The command that has to be carried out in this phase.
    pub fn command(self) -> (command: BusCommand)
        ensures
            command == match self {
                Phase::Opening => BusCommand::Open,
                Phase::Addressing => BusCommand::SetAddress(ADDR_PRESSURE_SENSOR),
                Phase::Sampling => BusCommand::Read,
            },
    {
        match self {
            Phase::Opening => BusCommand::Open,
            Phase::Addressing => BusCommand::SetAddress(ADDR_PRESSURE_SENSOR),
            Phase::Sampling => BusCommand::Read,
        }
    }
}

impl Pressure {
    /// A baseline is a raw reading, so it lies where raw readings lie.
    #[verifier::type_invariant]
    spec fn baseline_is_raw(&self) -> bool {
        RAW_MIN <= self.baseline <= RAW_MAX
    }

    /// The baseline, in contracts.
    pub closed spec fn spec_baseline(&self) -> i32 {
        self.baseline
    }

    /// The raw reading that was taken when the sensor was brought up.
    #[verifier::when_used_as_spec(spec_baseline)]
    pub fn baseline(&self) -> (baseline: i32)
        ensures
            baseline == self.spec_baseline(),
            RAW_MIN <= baseline <= RAW_MAX,
    {
        proof {
            use_type_invariant(self);
        }
        self.baseline
    }

    /// Takes start-up one step further.
    ///
    /// Start in `Phase::Opening`. Have the command of the current phase carried
    /// out, pass what the bus answered, and go on as the result says.
    pub fn init(phase: Phase, event: BusEvent) -> (next: Progress)
        ensures
            next@ == init_step(phase, event),
    {
        match phase {
            Phase::Opening => match event {
                BusEvent::Completed => Progress::Continue(Phase::Addressing),
                _ => Progress::Failed(PressureError::BusUnavailable),
            },
            Phase::Addressing => match event {
                BusEvent::Completed => Progress::Continue(Phase::Sampling),
                _ => Progress::Failed(PressureError::ConfigurationError),
            },
            Phase::Sampling => match Pressure::read_io(event) {
                Ok(baseline) => Progress::Ready(Pressure { baseline }),
                Err(error) => Progress::Failed(error),
            },
        }
    }

    /// Turns the answer to a `Read` command into a calibrated value.
    ///
    /// The sensor itself is left as it was, whatever the answer.
    pub fn read(&mut self, event: BusEvent) -> (result: Result<i32, PressureError>)
        ensures
            *final(self) == *old(self),
            match result {
                Ok(value) => reading(old(self).baseline() as int, event) == Ok::<
                    int,
                    PressureError,
                >(value as int) && value <= PRESSURE_CEILING,
                Err(error) => reading(old(self).baseline() as int, event) == Err::<
                    int,
                    PressureError,
                >(error),
            },
    {
        proof {
            use_type_invariant(&*self);
        }
        match Pressure::read_io(event) {
            Ok(raw) => Ok(scale(raw, self.baseline, PRESSURE_SCALING_FACTOR, PRESSURE_CEILING)),
            Err(error) => Err(error),
        }
    }

    /// Turns the answer to a `Read` command into a raw reading.
    pub fn read_io(event: BusEvent) -> (result: Result<i32, PressureError>)
        ensures
            match result {
                Ok(raw) => sample(event) == Ok::<int, PressureError>(raw as int),
                Err(error) => sample(event) == Err::<int, PressureError>(error),
            },
    {
        match event {
            BusEvent::Received(b0, b1) => Ok(decode(b0, b1)),
            _ => Err(PressureError::ReadFailure),
        }
    }
}

/// Start-up succeeds only when the bus was opened and addressed and then
/// delivered two bytes, and the baseline of the sensor is the raw reading of
/// those two bytes: of the first read that the channel ever carried out.
pub proof fn lemma_baseline_is_first_reading(events: Seq<BusEvent>, baseline: int)
    requires
        init_run(Phase::Opening, events) == ProgressView::Ready(baseline),
    ensures
        events.len() >= 3,
        events[0] == BusEvent::Completed,
        events[1] == BusEvent::Completed,
        sample(events[2]) == Ok::<int, PressureError>(baseline),
{
    reveal_with_fuel(init_run, 4);
    if events.len() >= 3 {
        assert(events.drop_first().first() == events[1]);
        assert(events.drop_first().drop_first().first() == events[2]);
    }
}

/// Start-up succeeds whenever the bus was opened and addressed and then
/// delivered two bytes.
pub proof fn lemma_clean_start_succeeds(events: Seq<BusEvent>, b0: u8, b1: u8)
    requires
        events.len() >= 3,
        events[0] == BusEvent::Completed,
        events[1] == BusEvent::Completed,
        events[2] == BusEvent::Received(b0, b1),
    ensures
        init_run(Phase::Opening, events) == ProgressView::Ready(raw_reading(b0, b1)),
{
    reveal_with_fuel(init_run, 4);
    assert(events.drop_first().first() == events[1]);
    assert(events.drop_first().drop_first().first() == events[2]);
}

/// Start-up fails at the first command that the bus does not carry out, with
/// the error of that command: no sensor comes of it, whatever the bus answers
/// afterwards.
pub proof fn lemma_first_failure_ends_start_up(events: Seq<BusEvent>)
    requires
        events.len() > 0,
    ensures
        events[0] != BusEvent::Completed ==> init_run(Phase::Opening, events)
            == ProgressView::Failed(PressureError::BusUnavailable),
        events.len() > 1 && events[0] == BusEvent::Completed && events[1] != BusEvent::Completed
            ==> init_run(Phase::Opening, events) == ProgressView::Failed(
            PressureError::ConfigurationError,
        ),
        events.len() > 2 && events[0] == BusEvent::Completed && events[1] == BusEvent::Completed
            && sample(events[2]) is Err ==> init_run(Phase::Opening, events)
            == ProgressView::Failed(PressureError::ReadFailure),
{
    reveal_with_fuel(init_run, 4);
    if events.len() > 1 {
        assert(events.drop_first().first() == events[1]);
    }
    if events.len() > 2 {
        assert(events.drop_first().drop_first().first() == events[2]);
    }
}

/// Two answers that deliver the same raw reading amount to the same
/// calibrated value, and two that fail amount to the same error.
pub proof fn lemma_same_sample_same_reading(baseline: int, first: BusEvent, second: BusEvent)
    requires
        sample(first) == sample(second),
    ensures
        reading(baseline, first) == reading(baseline, second),
{
}

/// An answer that delivers no bytes is a read failure, whatever the baseline.
pub proof fn lemma_failed_read_is_read_failure(baseline: int, event: BusEvent)
    requires
        !(event is Received),
    ensures
        reading(baseline, event) == Err::<int, PressureError>(PressureError::ReadFailure),
{
}

} // verus!
