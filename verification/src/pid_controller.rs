//! A discrete PID controller in recurrence form.
//!
//! Instead of accumulating an integral over time, the controller keeps
//! the last two error samples and the last output, and computes each
//! new output as a backward-difference recurrence over them. All
//! arithmetic is exact; an input whose update would leave the
//! representable scalar range is rejected with an error and leaves the
//! controller untouched.

use vstd::prelude::*;
use vstd::arithmetic::div_mod::{lemma_div_is_ordered_by_denominator, lemma_div_non_zero};
use crate::rational::{
    gcd, gcd_u64, lemma_gcd_pos_le, lemma_reduced_ratio_eqv, radd, rat_eqv, rdiv, rfits, rmul,
    rsub, Rat, RatModel,
};
use crate::servo::{ControlValue, ReadInputError, Servo, ServoInput};

verus! {

/// Message returned when a non-bootstrap call carries a zero elapsed
/// time, which would divide by zero in the recurrence.
pub open spec fn zero_delta_t_message() -> Seq<char> {
    "Delta t cannot be zero for discrete PID approximation."@
}

/// Message returned when the exact update would leave the
/// representable scalar range.
pub open spec fn overflow_message() -> Seq<char> {
    "Control value update overflows the scalar range."@
}

/// The value a missing history sample contributes: zero.
pub open spec fn or_zero(o: Option<Rat>) -> RatModel {
    match o {
        Some(v) => v@,
        None => RatModel { num: 0, den: 1 },
    }
}

/// The elapsed time `nanos` nanoseconds as a number of seconds, in
/// lowest terms with respect to the nanosecond scale.
pub open spec fn dt_model(nanos: u64) -> RatModel {
    let g = gcd(nanos as nat, 1_000_000_000 as nat);
    RatModel { num: ((nanos as nat) / g) as int, den: ((1_000_000_000 as nat) / g) as int }
}

/// Law: the derived elapsed time denotes exactly
/// `nanos / 1_000_000_000` seconds.
pub proof fn lemma_dt_model_exact(nanos: u64)
    ensures
        rat_eqv(dt_model(nanos), RatModel { num: nanos as int, den: 1_000_000_000 }),
{
    lemma_reduced_ratio_eqv(nanos as nat, 1_000_000_000 as nat);
}

/// Derive the elapsed-time scalar from a nanosecond count; `None` when
/// even its reduced numerator leaves the representable range.
fn reduced_dt(nanos: u64) -> (r: Option<Rat>)
    ensures
        r is Some <==> rfits(dt_model(nanos)),
        r matches Some(v) ==> v.wf() && v@ == dt_model(nanos),
{
    let g = gcd_u64(nanos, 1_000_000_000);
    proof {
        lemma_gcd_pos_le(nanos as nat, 1_000_000_000 as nat);
        lemma_div_is_ordered_by_denominator(1_000_000_000, 1, g as int);
        lemma_div_non_zero(1_000_000_000, g as int);
    }
    let num = nanos / g;
    let den = 1_000_000_000u64 / g;
    if num <= 0x7fffffffffffffff {
        Some(Rat::new(num as i64, den as i64))
    } else {
        None
    }
}

/// The concrete discrete-PID control law.
pub struct PidController {
    pub set_point: Rat,
    pub last_control_value: Option<Rat>,
    pub last_error_term: Option<Rat>,
    pub last_last_error_term: Option<Rat>,
    pub proportional: Rat,
    pub integral: Rat,
    pub derivative: Rat,
}

/// Partially-specified configuration for a [`PidController`]; every
/// unset field defaults to zero at `build` time.
pub struct PidControllerBuilder {
    pub set_point: Option<Rat>,
    pub proportional: Option<Rat>,
    pub integral: Option<Rat>,
    pub derivative: Option<Rat>,
}

impl PidControllerBuilder {
    /// A configuration with every field unset.
    fn new() -> (r: Self)
        ensures
            r.set_point is None,
            r.proportional is None,
            r.integral is None,
            r.derivative is None,
    {
        Self { set_point: None, proportional: None, integral: None, derivative: None }
    }

    /// Every set field is a genuine rational.
    pub open spec fn wf(self) -> bool {
        &&& (self.set_point matches Some(v) ==> v.wf())
        &&& (self.proportional matches Some(v) ==> v.wf())
        &&& (self.integral matches Some(v) ==> v.wf())
        &&& (self.derivative matches Some(v) ==> v.wf())
    }

    /// Choose the target the controller drives the process toward.
    pub fn set_point(self, set_point: Rat) -> (r: Self)
        ensures
            r == (Self { set_point: Some(set_point), ..self }),
    {
        Self { set_point: Some(set_point), ..self }
    }

    /// Choose the proportional gain.
    pub fn proportional(self, proportional: Rat) -> (r: Self)
        ensures
            r == (Self { proportional: Some(proportional), ..self }),
    {
        Self { proportional: Some(proportional), ..self }
    }

    /// Choose the integral gain.
    pub fn integral(self, integral: Rat) -> (r: Self)
        ensures
            r == (Self { integral: Some(integral), ..self }),
    {
        Self { integral: Some(integral), ..self }
    }

    /// Choose the derivative gain.
    pub fn derivative(self, derivative: Rat) -> (r: Self)
        ensures
            r == (Self { derivative: Some(derivative), ..self }),
    {
        Self { derivative: Some(derivative), ..self }
    }

    /// Resolve the configuration: unset fields become zero, history
    /// starts empty.
    pub fn build(self) -> (r: PidController)
        requires
            self.wf(),
        ensures
            r.wf(),
            r.set_point@ == or_zero(self.set_point),
            r.proportional@ == or_zero(self.proportional),
            r.integral@ == or_zero(self.integral),
            r.derivative@ == or_zero(self.derivative),
            r.last_control_value is None,
            r.last_error_term is None,
            r.last_last_error_term is None,
    {
        let Self { set_point, proportional, integral, derivative } = self;
        PidController {
            set_point: match set_point {
                Some(v) => v,
                None => Rat::zero(),
            },
            last_control_value: None,
            last_error_term: None,
            last_last_error_term: None,
            proportional: match proportional {
                Some(v) => v,
                None => Rat::zero(),
            },
            integral: match integral {
                Some(v) => v,
                None => Rat::zero(),
            },
            derivative: match derivative {
                Some(v) => v,
                None => Rat::zero(),
            },
        }
    }
}

impl PidController {
    /// Set point, gains and any retained history samples are genuine
    /// rationals.
    pub open spec fn wf_spec(self) -> bool {
        &&& self.set_point.wf()
        &&& self.proportional.wf()
        &&& self.integral.wf()
        &&& self.derivative.wf()
        &&& (self.last_control_value matches Some(v) ==> v.wf())
        &&& (self.last_error_term matches Some(v) ==> v.wf())
        &&& (self.last_last_error_term matches Some(v) ==> v.wf())
    }

    /// An empty configuration to fill in fluently.
    pub fn builder() -> (r: PidControllerBuilder)
        ensures
            r.set_point is None,
            r.proportional is None,
            r.integral is None,
            r.derivative is None,
    {
        PidControllerBuilder::new()
    }

    /// A controller that drives the process toward `set_point`, with
    /// every gain zero and no history.
    pub fn new(set_point: Rat) -> (r: Self)
        requires
            set_point.wf(),
        ensures
            r.wf_spec(),
            r.set_point == set_point,
            r.proportional@ == (RatModel { num: 0, den: 1 }),
            r.integral@ == (RatModel { num: 0, den: 1 }),
            r.derivative@ == (RatModel { num: 0, den: 1 }),
            r.last_control_value is None,
            r.last_error_term is None,
            r.last_last_error_term is None,
    {
        Self {
            set_point,
            last_control_value: None,
            last_error_term: None,
            last_last_error_term: None,
            proportional: Rat::zero(),
            integral: Rat::zero(),
            derivative: Rat::zero(),
        }
    }

    /// Replace the proportional gain; takes effect on the next read.
    pub fn set_proportional_term(&mut self, proportional: Rat)
        ensures
            *final(self) == (Self { proportional, ..*old(self) }),
    {
        self.proportional = proportional;
    }

    /// Replace the integral gain; takes effect on the next read.
    pub fn set_integral_term(&mut self, integral: Rat)
        ensures
            *final(self) == (Self { integral, ..*old(self) }),
    {
        self.integral = integral;
    }

    /// Replace the derivative gain; takes effect on the next read.
    pub fn set_derivative_term(&mut self, derivative: Rat)
        ensures
            *final(self) == (Self { derivative, ..*old(self) }),
    {
        self.derivative = derivative;
    }

    /// Retain the newest output and error sample for the next
    /// recurrence step, shifting the previous error sample back.
    fn backup_error_and_control_values(&mut self, value: Rat, err_tk: Rat)
        ensures
            *final(self) == (Self {
                last_control_value: Some(value),
                last_last_error_term: old(self).last_error_term,
                last_error_term: Some(err_tk),
                ..*old(self)
            }),
    {
        self.last_control_value = Some(value);
        self.last_last_error_term = self.last_error_term;
        self.last_error_term = Some(err_tk);
    }

    /// How one accepted read changes the retained state: gains and set
    /// point stay, `out` becomes the last output, `err` becomes the
    /// last error and the previous last error shifts back.
    pub open spec fn stepped(pre: Self, post: Self, out: RatModel, err: RatModel) -> bool {
        &&& post.set_point == pre.set_point
        &&& post.proportional == pre.proportional
        &&& post.integral == pre.integral
        &&& post.derivative == pre.derivative
        &&& post.last_last_error_term == pre.last_error_term
        &&& (post.last_error_term matches Some(e) && e.wf() && e@ == err)
        &&& (post.last_control_value matches Some(v) && v.wf() && v@ == out)
    }

    /// The exact recurrence value
    /// `u1 + err*(Kp + Ki*dt + Kd/dt) - e1*(Kp + 2*Kd/dt) + e2*(Kd/dt)`,
    /// evaluated in the order the implementation uses.
    pub open spec fn recurrence_value(pre: Self, err: RatModel, dt: RatModel) -> RatModel {
        let e1 = or_zero(pre.last_error_term);
        let e2 = or_zero(pre.last_last_error_term);
        let u1 = or_zero(pre.last_control_value);
        let ki_dt = rmul(pre.integral@, dt);
        let kd_dt = rdiv(pre.derivative@, dt);
        let c1a = radd(pre.proportional@, ki_dt);
        let c1 = radd(c1a, kd_dt);
        let t1 = rmul(err, c1);
        let c2a = rmul(RatModel { num: 2, den: 1 }, kd_dt);
        let c2 = radd(pre.proportional@, c2a);
        let t2 = rmul(e1, c2);
        let t3 = rmul(e2, kd_dt);
        let s1 = radd(u1, t1);
        let s2 = rsub(s1, t2);
        radd(s2, t3)
    }

    /// Every intermediate of the recurrence stays in the representable
    /// scalar range.
    pub open spec fn recurrence_fits(pre: Self, err: RatModel, dt: RatModel) -> bool {
        let e1 = or_zero(pre.last_error_term);
        let e2 = or_zero(pre.last_last_error_term);
        let u1 = or_zero(pre.last_control_value);
        let ki_dt = rmul(pre.integral@, dt);
        let kd_dt = rdiv(pre.derivative@, dt);
        let c1a = radd(pre.proportional@, ki_dt);
        let c1 = radd(c1a, kd_dt);
        let t1 = rmul(err, c1);
        let c2a = rmul(RatModel { num: 2, den: 1 }, kd_dt);
        let c2 = radd(pre.proportional@, c2a);
        let t2 = rmul(e1, c2);
        let t3 = rmul(e2, kd_dt);
        let s1 = radd(u1, t1);
        let s2 = rsub(s1, t2);
        &&& rfits(ki_dt)
        &&& rfits(kd_dt)
        &&& rfits(c1a)
        &&& rfits(c1)
        &&& rfits(t1)
        &&& rfits(c2a)
        &&& rfits(c2)
        &&& rfits(t2)
        &&& rfits(t3)
        &&& rfits(s1)
        &&& rfits(s2)
        &&& rfits(radd(s2, t3))
    }

    /// Evaluate the recurrence on the retained state; `None` when an
    /// intermediate leaves the representable range.
    fn recurrence(&self, err: Rat, dt: Rat) -> (r: Option<Rat>)
        requires
            self.wf_spec(),
            err.wf(),
            dt.wf(),
        ensures
            r is Some <==> Self::recurrence_fits(*self, err@, dt@),
            r matches Some(v) ==> v.wf() && v@ == Self::recurrence_value(*self, err@, dt@),
    {
        let e1 = match self.last_error_term {
            Some(v) => v,
            None => Rat::zero(),
        };
        let e2 = match self.last_last_error_term {
            Some(v) => v,
            None => Rat::zero(),
        };
        let u1 = match self.last_control_value {
            Some(v) => v,
            None => Rat::zero(),
        };
        let ki_dt = self.integral.checked_mul(dt)?;
        let kd_dt = self.derivative.checked_div(dt)?;
        let c1a = self.proportional.checked_add(ki_dt)?;
        let c1 = c1a.checked_add(kd_dt)?;
        let t1 = err.checked_mul(c1)?;
        let c2a = Rat::from_int(2).checked_mul(kd_dt)?;
        let c2 = self.proportional.checked_add(c2a)?;
        let t2 = e1.checked_mul(c2)?;
        let t3 = e2.checked_mul(kd_dt)?;
        let s1 = u1.checked_add(t1)?;
        let s2 = s1.checked_sub(t2)?;
        s2.checked_add(t3)
    }
}

impl Servo for PidController {
    open spec fn wf(&self) -> bool {
        self.wf_spec()
    }

    /// The full input/output relation of one read.
    ///
    /// Bootstrap (no elapsed time): a proportional-only response. With
    /// an elapsed time: zero rejects the input outright; otherwise the
    /// recurrence runs. Either accepted shape retains the new output
    /// and error sample; a rejected input leaves the state untouched.
    open spec fn read_spec(
        pre: Self,
        input: ServoInput,
        post: Self,
        r: Result<ControlValue, ReadInputError>,
    ) -> bool {
        match input.delta_t {
            None => {
                let err = rsub(pre.set_point@, input.process_value@);
                let out = rmul(pre.proportional@, err);
                if rfits(err) && rfits(out) {
                    &&& (r matches Ok(cv) && cv.value@ == out)
                    &&& Self::stepped(pre, post, out, err)
                } else {
                    &&& (r matches Err(e) && e.message@ == overflow_message())
                    &&& post == pre
                }
            }
            Some(td) => {
                if td.nanos == 0 {
                    &&& (r matches Err(e) && e.message@ == zero_delta_t_message())
                    &&& post == pre
                } else {
                    let dt = dt_model(td.nanos);
                    let err = rsub(pre.set_point@, input.process_value@);
                    if rfits(dt) && rfits(err) && Self::recurrence_fits(pre, err, dt) {
                        let out = Self::recurrence_value(pre, err, dt);
                        &&& (r matches Ok(cv) && cv.value@ == out)
                        &&& Self::stepped(pre, post, out, err)
                    } else {
                        &&& (r matches Err(e) && e.message@ == overflow_message())
                        &&& post == pre
                    }
                }
            }
        }
    }

    fn read(&mut self, servo_input: &ServoInput) -> (r: Result<ControlValue, ReadInputError>) {
        let delta_t = match servo_input.delta_t {
            Some(td) => td,
            None => {
                // No past measurement exists: proportional-only output.
                let err_tk = match self.set_point.checked_sub(servo_input.process_value) {
                    Some(v) => v,
                    None => {
                        return Err(ReadInputError::new(
                            "Control value update overflows the scalar range.",
                        ));
                    }
                };
                let value = match self.proportional.checked_mul(err_tk) {
                    Some(v) => v,
                    None => {
                        return Err(ReadInputError::new(
                            "Control value update overflows the scalar range.",
                        ));
                    }
                };
                let control_value = ControlValue { value };
                self.backup_error_and_control_values(value, err_tk);
                return Ok(control_value);
            }
        };
        if delta_t.nanos == 0 {
            return Err(ReadInputError::new(
                "Delta t cannot be zero for discrete PID approximation.",
            ));
        }
        let dt = match reduced_dt(delta_t.nanos) {
            Some(v) => v,
            None => {
                return Err(ReadInputError::new(
                    "Control value update overflows the scalar range.",
                ));
            }
        };
        let err_tk = match self.set_point.checked_sub(servo_input.process_value) {
            Some(v) => v,
            None => {
                return Err(ReadInputError::new(
                    "Control value update overflows the scalar range.",
                ));
            }
        };
        let value = match self.recurrence(err_tk, dt) {
            Some(v) => v,
            None => {
                return Err(ReadInputError::new(
                    "Control value update overflows the scalar range.",
                ));
            }
        };
        // Store error and output value terms for the next calculation
        self.backup_error_and_control_values(value, err_tk);
        Ok(ControlValue { value })
    }

    open spec fn label_spec(&self) -> Seq<char> {
        "PidController"@
    }

    fn label(&self) -> (r: &'static str)
        ensures
            r@ == self.label_spec(),
    {
        "PidController"
    }
}

} // verus!
