//! The controller capability: the interface between the engine and a
//! concrete control law, together with the value types that cross it.

use vstd::prelude::*;
use crate::rational::Rat;

verus! {

/// A scalar control output, owned by the caller.
#[derive(Clone, Copy, Debug)]
pub struct ControlValue {
    pub value: Rat,
}

/// Elapsed time between two consecutive accepted samples.
#[derive(Clone, Copy, Debug, PartialEq, Eq, Structural)]
pub struct TimeDelta {
    pub nanos: u64,
}

impl TimeDelta {
    /// A span of whole seconds.
    pub fn from_secs(secs: u64) -> (r: TimeDelta)
        requires
            secs * 1_000_000_000 <= u64::MAX,
        ensures
            r.nanos == secs * 1_000_000_000,
    {
        TimeDelta { nanos: secs * 1_000_000_000 }
    }

    /// A span of whole nanoseconds.
    pub fn from_nanos(nanos: u64) -> (r: TimeDelta)
        ensures
            r.nanos == nanos,
    {
        TimeDelta { nanos }
    }
}

/// Ephemeral per-call input handed to a control law: the process value
/// and, when a previous sample exists, the time elapsed since it.
#[derive(Clone, Copy, Debug)]
pub struct ServoInput {
    pub process_value: Rat,
    pub delta_t: Option<TimeDelta>,
}

impl ServoInput {
    /// The process value is a genuine rational.
    pub open spec fn wf(self) -> bool {
        self.process_value.wf()
    }
}

/// A rejected input, carrying a human-readable description of the
/// failed validation.
#[derive(Debug)]
pub struct ReadInputError {
    pub message: String,
}

impl ReadInputError {
    /// An error carrying `message`.
    pub fn new(message: &str) -> (r: Self)
        ensures
            r.message@ == message@,
    {
        Self { message: message.to_owned() }
    }

    /// The description this error carries.
    pub fn message(&self) -> (r: &str)
        ensures
            r@ == self.message@,
    {
        self.message.as_str()
    }
}

/// A control law: anything that maps a process reading to a control
/// output as a pure function of its own state and the given input.
///
/// `read_spec` is each implementor's statement of that function: it
/// relates the state before a call, the input, the state after the
/// call and the returned result, and `read` is bound to it.
pub trait Servo: Sized {
    /// The state a law needs before it can be read.
    spec fn wf(&self) -> bool;

    /// The law's input/output relation: pre-state, input, post-state,
    /// result.
    spec fn read_spec(
        pre: Self,
        input: ServoInput,
        post: Self,
        r: Result<ControlValue, ReadInputError>,
    ) -> bool;

    /// Feed one input to the law and take its output.
    fn read(&mut self, servo_input: &ServoInput) -> (r: Result<ControlValue, ReadInputError>)
        requires
            old(self).wf(),
            servo_input.wf(),
        ensures
            final(self).wf(),
            Self::read_spec(*old(self), *servo_input, *final(self), r),
    ;

    /// The name under which the law reports itself.
    spec fn label_spec(&self) -> Seq<char>;

    /// A short human-readable name for diagnostics.
    fn label(&self) -> (r: &'static str)
        ensures
            r@ == self.label_spec(),
    ;
}

} // verus!
