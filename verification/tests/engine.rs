use servo_pid::engine::{Engine, Measurement, Timestamp};
use servo_pid::pid_controller::PidController;
use servo_pid::rational::Rat;

#[test]
fn should_instantiate_engine_correctly() {
    let servo = PidController::builder().build();
    let engine = Engine::new(servo);
    assert!(engine.last_read_timestamp.is_none());
    assert_eq!(engine.num_reads, 0);
}

#[test]
fn should_invoke_servo_engine_correctly() {
    let servo = PidController::builder().build();
    let mut engine = Engine::new(servo);
    let mut measurement = Measurement::new();
    measurement.set_value(Rat::from_int(100), Timestamp::new(1));
    let _ = engine.next(&measurement);
    assert_eq!(engine.num_reads, 1);
}

#[test]
fn should_invoke_and_reset_engine_correctly() {
    let servo = PidController::builder().build();
    let mut engine = Engine::new(servo);
    let mut measurement = Measurement::new();
    let mut previous_timestamp = Timestamp::new(1);
    measurement.set_value(Rat::new(11, 10), previous_timestamp);
    for i in 0..5u64 {
        let _ = engine.next(&measurement);
        assert_eq!(engine.last_read_timestamp.unwrap(), previous_timestamp);
        previous_timestamp = Timestamp::new(2 + i);
        measurement.set_value(Rat::from_int(1), previous_timestamp);
    }
    assert_eq!(engine.num_reads, 5);
    engine.reset();
    assert_eq!(engine.num_reads, 0);
}

#[test]
fn engine_should_err_if_new_measurement_is_older_than_previous() {
    let servo = PidController::builder().build();
    let mut engine = Engine::new(servo);

    let older = Timestamp::new(1_000_000_000);
    let newer = Timestamp::new(older.nanos + 1_000_000_000);

    engine.last_read_timestamp = Some(newer);

    let mut measurement = Measurement::new();
    measurement.set_value(Rat::from_int(1), older);
    match engine.next(&measurement) {
        Ok(_) => unreachable!(),
        Err(e) => assert_eq!(
            e.message(),
            "Failed to execute engine on new measurement that is older than the previous measurement."
        ),
    }
}

#[test]
fn engine_rejects_equal_timestamps() {
    let servo = PidController::builder().build();
    let mut engine = Engine::new(servo);
    let mut measurement = Measurement::new();
    measurement.set_value(Rat::from_int(1), Timestamp::new(7));
    assert!(engine.next(&measurement).is_ok());
    measurement.set_value(Rat::from_int(2), Timestamp::new(7));
    match engine.next(&measurement) {
        Ok(_) => unreachable!(),
        Err(e) => assert_eq!(
            e.message(),
            "Failed to execute engine on new measurement that is older than the previous measurement."
        ),
    }
    assert_eq!(engine.num_reads, 1);
}

#[test]
fn engine_rejects_measurement_without_timestamp() {
    let servo = PidController::builder().build();
    let mut engine = Engine::new(servo);
    let measurement = Measurement::new();
    match engine.next(&measurement) {
        Ok(_) => unreachable!(),
        Err(e) => assert_eq!(e.message(), "Measurement needs a timestamp"),
    }
    assert_eq!(engine.num_reads, 0);
    assert!(engine.last_read_timestamp.is_none());
}

#[test]
fn engine_counts_reads_even_when_controller_fails() {
    let mut servo = PidController::builder().set_point(Rat::from_int(i64::MAX)).build();
    servo.set_proportional_term(Rat::from_int(1));
    let mut engine = Engine::new(servo);
    let mut measurement = Measurement::new();
    // The controller rejects this input (its error term overflows),
    // but the engine's own validation passed: the read still counts.
    measurement.set_value(Rat::from_int(-2), Timestamp::new(3));
    assert!(engine.next(&measurement).is_err());
    assert_eq!(engine.num_reads, 1);
    assert_eq!(engine.last_read_timestamp.unwrap(), Timestamp::new(3));
    // A rejection by the engine itself is not counted.
    measurement.set_value(Rat::from_int(1), Timestamp::new(3));
    assert!(engine.next(&measurement).is_err());
    assert_eq!(engine.num_reads, 1);
}

#[test]
fn reset_clears_engine_but_not_controller() {
    let mut servo = PidController::builder().set_point(Rat::from_int(15)).build();
    servo.set_proportional_term(Rat::from_int(10));
    let mut engine = Engine::new(servo);
    let mut measurement = Measurement::new();
    measurement.set_value(Rat::from_int(10), Timestamp::new(5));
    match engine.next(&measurement) {
        Ok(v) => assert!(v.value.eqv(&Rat::from_int(50))),
        Err(_) => unreachable!(),
    }
    engine.reset();
    assert_eq!(engine.num_reads, 0);
    assert!(engine.last_read_timestamp.is_none());
    // The controller's memory survives the engine reset.
    assert!(engine.servo.last_error_term.unwrap().eqv(&Rat::from_int(5)));
    assert!(engine.servo.last_control_value.unwrap().eqv(&Rat::from_int(50)));
    assert!(engine.servo.set_point.eqv(&Rat::from_int(15)));
    assert!(engine.servo.proportional.eqv(&Rat::from_int(10)));
}

#[test]
fn engine_derives_elapsed_time_for_second_read() {
    let mut servo = PidController::builder().set_point(Rat::from_int(0)).build();
    servo.set_integral_term(Rat::from_int(2));
    let mut engine = Engine::new(servo);
    let mut measurement = Measurement::new();
    // Bootstrap read: proportional gain is zero, so the output is zero.
    measurement.set_value(Rat::from_int(-1), Timestamp::new(1_000_000_000));
    match engine.next(&measurement) {
        Ok(v) => assert!(v.value.eqv(&Rat::from_int(0))),
        Err(_) => unreachable!(),
    }
    // Half a second later: output = Ki * err * dt = 2 * 1 * 1/2.
    measurement.set_value(Rat::from_int(-1), Timestamp::new(1_500_000_000));
    match engine.next(&measurement) {
        Ok(v) => assert!(v.value.eqv(&Rat::from_int(1))),
        Err(_) => unreachable!(),
    }
}

#[test]
fn describe_names_the_law_and_the_read_count() {
    let servo = PidController::builder().build();
    let mut engine = Engine::new(servo);
    assert_eq!(engine.describe(), "Engine runner [PidController] has 0 total read(s)");
    let mut measurement = Measurement::new();
    measurement.set_value(Rat::from_int(3), Timestamp::new(4));
    let _ = engine.next(&measurement);
    assert_eq!(engine.describe(), "Engine runner [PidController] has 1 total read(s)");
}
