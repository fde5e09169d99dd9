//! The orchestrator: owns one control law, polices the temporal
//! validity of the measurement stream, derives elapsed times and
//! drives the law.

use vstd::prelude::*;
use vstd::string::StringExecFns;
use crate::decimal::{decimal_digits, u64_to_decimal};
use crate::rational::{Rat, RatModel};
use crate::servo::{ControlValue, ReadInputError, Servo, ServoInput, TimeDelta};

verus! {

/// Message returned for a measurement presented without a timestamp.
pub open spec fn missing_timestamp_message() -> Seq<char> {
    "Measurement needs a timestamp"@
}

/// Message returned for a measurement whose timestamp does not come
/// strictly after the previously accepted one.
pub open spec fn stale_measurement_message() -> Seq<char> {
    "Failed to execute engine on new measurement that is older than the previous measurement."@
}

/// A caller-supplied instant, as nanoseconds from an epoch the caller
/// chooses. The engine never reads a clock; it only compares and
/// differences these.
#[derive(Clone, Copy, Debug, PartialEq, Eq, Structural)]
pub struct Timestamp {
    pub nanos: u64,
}

impl Timestamp {
    /// The instant `nanos` nanoseconds from the caller's epoch.
    pub fn new(nanos: u64) -> (r: Timestamp)
        ensures
            r.nanos == nanos,
    {
        Timestamp { nanos }
    }
}

/// An externally supplied process reading: a value and, when the
/// sensor provided one, the instant it was taken.
#[derive(Clone, Copy, Debug)]
pub struct Measurement {
    pub value: Rat,
    pub timestamp: Option<Timestamp>,
}

impl Measurement {
    /// The carried value is a genuine rational.
    pub open spec fn wf(self) -> bool {
        self.value.wf()
    }

    /// A zero reading with no timestamp.
    pub fn new() -> (r: Self)
        ensures
            r.wf(),
            r.value@ == (RatModel { num: 0, den: 1 }),
            r.timestamp is None,
    {
        Self { value: Rat::zero(), timestamp: None }
    }

    /// Overwrite the reading in place.
    pub fn set_value(&mut self, value: Rat, timestamp: Timestamp)
        ensures
            *final(self) == (Measurement { value, timestamp: Some(timestamp) }),
    {
        self.value = value;
        self.timestamp = Some(timestamp);
    }
}

/// The orchestrator: one owned control law, the timestamp of the last
/// accepted measurement, and a count of completed reads.
pub struct Engine<T: Servo> {
    pub servo: T,
    pub last_read_timestamp: Option<Timestamp>,
    pub num_reads: u64,
}

/// The engine's own validation admits `m`: it has a timestamp, and
/// that timestamp comes strictly after the last accepted one, if any.
pub open spec fn engine_accepts<T: Servo>(pre: Engine<T>, m: Measurement) -> bool {
    &&& m.timestamp is Some
    &&& (pre.last_read_timestamp matches Some(p) ==>
            p.nanos < m.timestamp->Some_0.nanos)
}

/// How one `next` call relates the engine before, the measurement, the
/// engine after and the returned result.
///
/// A measurement that fails the engine's own validation leaves the
/// engine untouched and yields the matching error. An accepted one is
/// handed to the owned law with the elapsed time since the previous
/// accepted measurement (none for the first), and — whether the law
/// succeeds or fails — counts as a completed read and becomes the new
/// last timestamp.
pub open spec fn next_spec<T: Servo>(
    pre: Engine<T>,
    m: Measurement,
    post: Engine<T>,
    r: Result<ControlValue, ReadInputError>,
) -> bool {
    match m.timestamp {
        None => {
            &&& post == pre
            &&& (r matches Err(e) && e.message@ == missing_timestamp_message())
        }
        Some(t) => {
            if pre.last_read_timestamp matches Some(p) && p.nanos >= t.nanos {
                &&& post == pre
                &&& (r matches Err(e) && e.message@ == stale_measurement_message())
            } else {
                let delta_t = match pre.last_read_timestamp {
                    Some(p) => Some(TimeDelta { nanos: (t.nanos - p.nanos) as u64 }),
                    None => None,
                };
                &&& post.num_reads == pre.num_reads + 1
                &&& post.last_read_timestamp == Some(t)
                &&& T::read_spec(
                        pre.servo,
                        (ServoInput { process_value: m.value, delta_t }),
                        post.servo,
                        r,
                    )
            }
        }
    }
}

impl<T: Servo> Engine<T> {
    /// The owned control law is in a readable state.
    pub open spec fn wf(self) -> bool {
        self.servo.wf()
    }

    /// Take ownership of a control law; no measurement has been seen
    /// and no read has completed.
    pub fn new(servo: T) -> (r: Self)
        ensures
            r.servo == servo,
            r.last_read_timestamp is None,
            r.num_reads == 0,
    {
        Self { servo, last_read_timestamp: None, num_reads: 0 }
    }

    /// Clear the engine's own temporal bookkeeping. The owned control
    /// law — its set point, gains and retained history — is untouched.
    pub fn reset(&mut self)
        ensures
            final(self).last_read_timestamp is None,
            final(self).num_reads == 0,
            final(self).servo == old(self).servo,
    {
        self.last_read_timestamp = None;
        self.num_reads = 0;
    }

    /// Validate the measurement's timing, then drive the owned law.
    pub fn next(&mut self, measurement: &Measurement) -> (r: Result<ControlValue, ReadInputError>)
        requires
            old(self).wf(),
            measurement.wf(),
            old(self).num_reads < u64::MAX,
        ensures
            final(self).wf(),
            next_spec(*old(self), *measurement, *final(self), r),
    {
        let timestamp = match measurement.timestamp {
            Some(t) => t,
            None => {
                return Err(ReadInputError::new("Measurement needs a timestamp"));
            }
        };
        let mut delta_t: Option<TimeDelta> = None;
        match self.last_read_timestamp {
            Some(previous_timestamp) => {
                // A previous measurement exists: the new one must come
                // strictly after it.
                if previous_timestamp.nanos >= timestamp.nanos {
                    return Err(ReadInputError::new(
                        "Failed to execute engine on new measurement that is older than the previous measurement.",
                    ));
                }
                delta_t = Some(TimeDelta { nanos: timestamp.nanos - previous_timestamp.nanos });
            }
            None => {}
        }
        let servo_input = ServoInput { process_value: measurement.value, delta_t };
        let servo_result = self.servo.read(&servo_input);

        self.num_reads = self.num_reads + 1;
        self.last_read_timestamp = Some(timestamp);
        servo_result
    }

    /// A diagnostic line naming the owned control law and the number
    /// of completed reads.
    pub fn describe(&self) -> (r: String)
        ensures
            r@ == "Engine runner ["@ + self.servo.label_spec() + "] has "@
                + decimal_digits(self.num_reads as nat) + " total read(s)"@,
    {
        let mut line = String::new();
        line.append("Engine runner [");
        line.append(self.servo.label());
        line.append("] has ");
        let count = u64_to_decimal(self.num_reads);
        line.append(count.as_str());
        line.append(" total read(s)");
        proof {
            assert(line@ =~= "Engine runner ["@ + self.servo.label_spec() + "] has "@
                + decimal_digits(self.num_reads as nat) + " total read(s)"@);
        }
        line
    }
}

/// Law: the last accepted timestamp strictly increases. One engine
/// step that passes the engine's own validation installs the new
/// measurement's timestamp, and whenever an earlier one was installed,
/// the new one comes strictly after it.
pub proof fn lemma_last_read_timestamp_strictly_increases<T: Servo>(
    pre: Engine<T>,
    m: Measurement,
    post: Engine<T>,
    r: Result<ControlValue, ReadInputError>,
)
    requires
        next_spec(pre, m, post, r),
        engine_accepts(pre, m),
    ensures
        post.last_read_timestamp == m.timestamp,
        post.last_read_timestamp is Some,
        pre.last_read_timestamp matches Some(p) ==>
            post.last_read_timestamp->Some_0.nanos > p.nanos,
{
}

/// A run of the engine: `states` holds one more entry than `ms`, and
/// each later state arises from its predecessor by one `next` call on
/// the measurement and with the result at the same index.
pub open spec fn engine_run<T: Servo>(
    states: Seq<Engine<T>>,
    ms: Seq<Measurement>,
    rs: Seq<Result<ControlValue, ReadInputError>>,
) -> bool {
    &&& states.len() == ms.len() + 1
    &&& rs.len() == ms.len()
    &&& forall|i: int| 0 <= i < ms.len() ==>
            next_spec(#[trigger] states[i], ms[i], states[i + 1], rs[i])
}

/// Law: over any run whose measurements all pass the engine's own
/// validation, the installed timestamps are strictly increasing.
pub proof fn lemma_run_timestamps_strictly_increase<T: Servo>(
    states: Seq<Engine<T>>,
    ms: Seq<Measurement>,
    rs: Seq<Result<ControlValue, ReadInputError>>,
    i: int,
    j: int,
)
    requires
        engine_run(states, ms, rs),
        forall|k: int| 0 <= k < ms.len() ==> engine_accepts(#[trigger] states[k], ms[k]),
        0 <= i < j < ms.len(),
    ensures
        states[i + 1].last_read_timestamp is Some,
        states[j + 1].last_read_timestamp is Some,
        states[j + 1].last_read_timestamp->Some_0.nanos
            > states[i + 1].last_read_timestamp->Some_0.nanos,
    decreases j - i,
{
    lemma_last_read_timestamp_strictly_increases(states[i], ms[i], states[i + 1], rs[i]);
    if j == i + 1 {
        lemma_last_read_timestamp_strictly_increases(states[j], ms[j], states[j + 1], rs[j]);
    } else {
        lemma_run_timestamps_strictly_increase(states, ms, rs, i, j - 1);
        lemma_last_read_timestamp_strictly_increases(states[j], ms[j], states[j + 1], rs[j]);
    }
}

/// Law: `num_reads` counts exactly the calls that pass the engine's
/// own validation — also those where the law itself reports an error —
/// and no others.
pub proof fn lemma_num_reads_counts_validated_calls<T: Servo>(
    pre: Engine<T>,
    m: Measurement,
    post: Engine<T>,
    r: Result<ControlValue, ReadInputError>,
)
    requires
        next_spec(pre, m, post, r),
    ensures
        engine_accepts(pre, m) ==> post.num_reads == pre.num_reads + 1,
        !engine_accepts(pre, m) ==> post.num_reads == pre.num_reads && r is Err,
{
}

} // verus!
