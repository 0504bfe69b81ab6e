use vstd::prelude::*;
use vstd::string::*;
use crate::datapoint::{Datapoint, DatapointView, Reading, points_view, reading_datapoints, reading_points};
use crate::sensor::{Sensor, SensorView};

verus! {

/// The shortest spacing between two polls of one DHT22, in milliseconds.
pub const MIN_POLL_SPACING_MS: u64 = 2100;

/// Why one poll of a sensor failed.
#[derive(Clone, Debug, PartialEq, Eq)]
pub enum PollFailure {
    /// The checksum byte did not match the data (corrupted in transit).
    Checksum,
    /// The sensor did not answer within the hardware window.
    Timeout,
    /// The GPIO layer failed; the text describes the fault.
    Gpio(String),
}

/// The human-readable line for a failed poll.
pub open spec fn failure_message(f: PollFailure) -> Seq<char> {
    match f {
        PollFailure::Checksum => "Checksum value of the reading is incorrect!"@,
        PollFailure::Timeout => "Timeout reading the sensor value"@,
        PollFailure::Gpio(detail) => "Problem reading GPIO value: "@ + detail@,
    }
}

impl PollFailure {
    /// The human-readable line for this failure.
    pub fn message(&self) -> (r: String)
        ensures
            r@ == failure_message(*self),
    {
        match self {
            PollFailure::Checksum => "Checksum value of the reading is incorrect!".to_owned(),
            PollFailure::Timeout => "Timeout reading the sensor value".to_owned(),
            PollFailure::Gpio(detail) => "Problem reading GPIO value: ".to_owned().concat(
                detail.as_str(),
            ),
        }
    }
}

/// What the caller does next for a sensor.
#[derive(Clone, Debug, PartialEq, Eq)]
pub enum ReaderAction {
    /// Wait `delay_ms` milliseconds, poll the sensor once and report the outcome.
    Poll { delay_ms: u64 },
    /// The reading succeeded: these are the sensor's datapoints for the cycle.
    Emit(Vec<Datapoint>),
    /// The attempt budget is spent without a successful reading.
    GiveUp,
}

/// The model of an action.
pub enum ActionView {
    Poll { delay_ms: u64 },
    Emit(Seq<DatapointView>),
    GiveUp,
}

impl View for ReaderAction {
    type V = ActionView;

    open spec fn view(&self) -> ActionView {
        match self {
            ReaderAction::Poll { delay_ms } => ActionView::Poll { delay_ms: *delay_ms },
            ReaderAction::Emit(v) => ActionView::Emit(points_view(v@)),
            ReaderAction::GiveUp => ActionView::GiveUp,
        }
    }
}

/// The per-sensor reader of one cycle: it polls until a reading succeeds, with
/// `MIN_POLL_SPACING_MS` between polls. `max_attempts` bounds the number of
/// polls; `None` retries without bound.
pub struct SensorReader {
    pub sensor: Sensor,
    pub resolution: i32,
    pub max_attempts: Option<u64>,
    pub attempts: u64,
}

/// The model of a reader.
pub struct ReaderView {
    pub sensor: SensorView,
    pub resolution: i32,
    pub max_attempts: Option<u64>,
    pub attempts: nat,
}

impl View for SensorReader {
    type V = ReaderView;

    open spec fn view(&self) -> ReaderView {
        ReaderView {
            sensor: self.sensor@,
            resolution: self.resolution,
            max_attempts: self.max_attempts,
            attempts: self.attempts as nat,
        }
    }
}

/// Whether a reader that has made `attempts` polls may make another.
pub open spec fn budget_left(max_attempts: Option<u64>, attempts: nat) -> bool {
    match max_attempts {
        Some(m) => attempts < m,
        None => true,
    }
}

/// The reader after one more poll.
pub open spec fn after_poll(r: ReaderView) -> ReaderView {
    ReaderView { attempts: r.attempts + 1, ..r }
}

/// The action that follows the outcome of a poll, reported at `timestamp`,
/// by a reader that has made `r.attempts` polls including that one.
pub open spec fn action_of(
    r: ReaderView,
    outcome: Result<Reading, PollFailure>,
    timestamp: u64,
) -> ActionView {
    match outcome {
        Ok(reading) => ActionView::Emit(
            reading_points(r.sensor.name, reading, timestamp, r.resolution),
        ),
        Err(_) => if budget_left(r.max_attempts, r.attempts) {
            ActionView::Poll { delay_ms: MIN_POLL_SPACING_MS }
        } else {
            ActionView::GiveUp
        },
    }
}

impl SensorReader {
    /// A reader for `sensor` that has made no poll yet.
    pub fn new(sensor: Sensor, resolution: i32, max_attempts: Option<u64>) -> (r: SensorReader)
        ensures
            r@ == (ReaderView { sensor: sensor@, resolution, max_attempts, attempts: 0 }),
    {
        SensorReader { sensor, resolution, max_attempts, attempts: 0 }
    }

    /// The first action of the cycle: poll at once, unless no poll is allowed.
    pub fn start(&self) -> (a: ReaderAction)
        ensures
            a@ == (if budget_left(self.max_attempts, self.attempts as nat) {
                ActionView::Poll { delay_ms: 0 }
            } else {
                ActionView::GiveUp
            }),
    {
        if self.has_budget() {
            ReaderAction::Poll { delay_ms: 0 }
        } else {
            ReaderAction::GiveUp
        }
    }

    fn has_budget(&self) -> (b: bool)
        ensures
            b == budget_left(self.max_attempts, self.attempts as nat),
    {
        match self.max_attempts {
            Some(m) => self.attempts < m,
            None => true,
        }
    }

    /// Takes the outcome of one poll, and the wall-clock time in unix seconds
    /// when it was made, and says what to do next. A successful reading gives
    /// the two datapoints of the sensor, stamped with that time and the
    /// cycle's resolution; a failure gives another poll after the minimum
    /// spacing while the attempt budget lasts.
    pub fn on_poll(&mut self, outcome: Result<Reading, PollFailure>, timestamp: u64) -> (a:
        ReaderAction)
        requires
            old(self).attempts < u64::MAX,
            timestamp <= i64::MAX,
        ensures
            final(self)@ == after_poll(old(self)@),
            a@ == action_of(after_poll(old(self)@), outcome, timestamp),
    {
        self.attempts = self.attempts + 1;
        match outcome {
            Ok(reading) => {
                let points = reading_datapoints(&reading, &self.sensor, timestamp, self.resolution);
                ReaderAction::Emit(points)
            },
            Err(_) => {
                if self.has_budget() {
                    ReaderAction::Poll { delay_ms: MIN_POLL_SPACING_MS }
                } else {
                    ReaderAction::GiveUp
                }
            },
        }
    }
}

/// The reader after a sequence of polls with the given outcomes, reported at
/// the given times, and the action that followed each.
pub open spec fn run(
    r: ReaderView,
    outcomes: Seq<Result<Reading, PollFailure>>,
    times: Seq<u64>,
) -> (ReaderView, Seq<ActionView>)
    decreases outcomes.len(),
{
    if outcomes.len() == 0 {
        (r, Seq::empty())
    } else {
        let next = after_poll(r);
        let rest = run(next, outcomes.drop_first(), times.drop_first());
        (rest.0, seq![action_of(next, outcomes[0], times[0])] + rest.1)
    }
}

/// A sensor that fails `n` times and then succeeds is polled exactly `n + 1`
/// times: each failure is followed by one more poll after the minimum
/// spacing, and the success by the datapoints of the successful reading.
/// This holds whenever the attempt budget admits `n + 1` polls.
pub proof fn fails_then_succeeds(
    r: ReaderView,
    n: nat,
    outcomes: Seq<Result<Reading, PollFailure>>,
    times: Seq<u64>,
)
    requires
        outcomes.len() == n + 1,
        times.len() == n + 1,
        forall|i: int| 0 <= i < n ==> outcomes[i] is Err,
        outcomes[n as int] is Ok,
        budget_left(r.max_attempts, r.attempts + n),
    ensures
        run(r, outcomes, times).0 == (ReaderView { attempts: r.attempts + n + 1, ..r }),
        run(r, outcomes, times).1.len() == n + 1,
        forall|i: int|
            0 <= i < n ==> run(r, outcomes, times).1[i] == (ActionView::Poll {
                delay_ms: MIN_POLL_SPACING_MS,
            }),
        run(r, outcomes, times).1[n as int] == ActionView::Emit(
            reading_points(r.sensor.name, outcomes[n as int]->Ok_0, times[n as int], r.resolution),
        ),
    decreases n,
{
    let next = after_poll(r);
    let o2 = outcomes.drop_first();
    let t2 = times.drop_first();
    let rest = run(next, o2, t2);
    assert(run(r, outcomes, times) == (rest.0, seq![action_of(next, outcomes[0], times[0])]
        + rest.1));
    if n > 0 {
        assert forall|i: int| 0 <= i < n - 1 implies o2[i] is Err by {
            assert(o2[i] == outcomes[i + 1]);
        }
        assert(o2[n - 1] == outcomes[n as int]);
        assert(t2[n - 1] == times[n as int]);
        fails_then_succeeds(next, (n - 1) as nat, o2, t2);
        assert(outcomes[0] is Err);
        assert(budget_left(next.max_attempts, next.attempts));
    } else {
        assert(o2.len() == 0);
        assert(rest == (next, Seq::<ActionView>::empty()));
    }
}

/// Every datapoint that a reader emits carries the reader's resolution as its
/// interval and the time of the successful poll as its time.
pub proof fn emitted_points_carry_resolution_and_time(
    r: ReaderView,
    outcome: Result<Reading, PollFailure>,
    timestamp: u64,
)
    ensures
        action_of(r, outcome, timestamp) is Emit ==> forall|i: int|
            0 <= i < action_of(r, outcome, timestamp)->Emit_0.len() ==> {
                &&& (#[trigger] action_of(r, outcome, timestamp)->Emit_0[i]).interval
                    == r.resolution
                &&& action_of(r, outcome, timestamp)->Emit_0[i].time == timestamp as i64
            },
{
}

/// A successful poll yields exactly two datapoints, named
/// `<sensor>.temperature` and `<sensor>.humidity`.
pub proof fn success_emits_two_named_points(r: ReaderView, reading: Reading, timestamp: u64)
    ensures
        action_of(r, Ok(reading), timestamp) is Emit,
        action_of(r, Ok(reading), timestamp)->Emit_0.len() == 2,
        action_of(r, Ok(reading), timestamp)->Emit_0[0].name == r.sensor.name + "."@
            + "temperature"@,
        action_of(r, Ok(reading), timestamp)->Emit_0[1].name == r.sensor.name + "."@
            + "humidity"@,
{
}

} // verus!
