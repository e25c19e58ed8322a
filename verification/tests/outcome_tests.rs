use modbus_gateway::modbus_manager::{
    is_connection_alive, ConnectOutcome, Modbus, ModbusManager, CONNECT_TIMEOUT_MS, PROBE_ADDRESS,
    PROBE_COUNT, PROBE_TIMEOUT_MS,
};
use modbus_gateway::outcome::{category, classify, reported_liveness, Failure, RawReply, OperationOutcome};

#[test]
fn values_classify_as_success() {
    let raw: RawReply = Ok(Ok(Ok(vec![6, 0, 0])));
    assert_eq!(classify(raw), OperationOutcome::Success(vec![6, 0, 0]));
}

#[test]
fn exception_classifies_as_protocol_exception() {
    let raw: RawReply = Ok(Ok(Err(2)));
    assert_eq!(classify(raw), OperationOutcome::ProtocolException(2));
}

#[test]
fn broken_connection_classifies_as_transport_error() {
    let raw: RawReply = Ok(Err("connection reset by peer".to_string()));
    assert_eq!(classify(raw), OperationOutcome::TransportError("connection reset by peer".to_string()));
}

#[test]
fn elapsed_timer_classifies_as_timeout() {
    let raw: RawReply = Err("deadline has elapsed".to_string());
    assert_eq!(classify(raw), OperationOutcome::Timeout("deadline has elapsed".to_string()));
}

#[test]
fn session_survives_an_answer_and_nothing_else() {
    assert!(reported_liveness(&OperationOutcome::Success(vec![])));
    assert!(reported_liveness(&OperationOutcome::ProtocolException(1)));
    assert!(!reported_liveness(&OperationOutcome::TransportError("x".to_string())));
    assert!(!reported_liveness(&OperationOutcome::Timeout("x".to_string())));
}

#[test]
fn outcome_gives_its_values_or_its_failure() {
    assert_eq!(OperationOutcome::Success(vec![1]).into_result(), Ok(vec![1]));
    assert_eq!(
        OperationOutcome::ProtocolException(3).into_result(),
        Err(Failure::ProtocolException(3))
    );
    assert_eq!(
        OperationOutcome::TransportError("t".to_string()).into_result(),
        Err(Failure::TransportError("t".to_string()))
    );
    assert_eq!(
        OperationOutcome::Timeout("late".to_string()).into_result(),
        Err(Failure::ReadTimeout("late".to_string()))
    );
}

#[test]
fn exception_text_is_the_codec_s() {
    assert_eq!(Failure::ProtocolException(0x01).describe(), "Illegal function");
    assert_eq!(Failure::ProtocolException(0x02).describe(), "Illegal data address");
    assert_eq!(Failure::ProtocolException(0x03).describe(), "Illegal data value");
    assert_eq!(Failure::ProtocolException(0x04).describe(), "Server device failure");
    assert_eq!(Failure::ProtocolException(0x05).describe(), "Acknowledge");
    assert_eq!(Failure::ProtocolException(0x06).describe(), "Server device busy");
    assert_eq!(Failure::ProtocolException(0x08).describe(), "Memory parity error");
    assert_eq!(Failure::ProtocolException(0x0A).describe(), "Gateway path unavailable");
    assert_eq!(
        Failure::ProtocolException(0x0B).describe(),
        "Gateway target device failed to respond"
    );
}

#[test]
fn unlisted_exception_codes_are_custom() {
    for code in [0x00u8, 0x07, 0x09, 0x0C, 0x63, 0xFF] {
        assert_eq!(Failure::ProtocolException(code).describe(), "Custom");
    }
}

#[test]
fn failure_text_passes_on_what_the_transport_said() {
    assert_eq!(Failure::TransportError("broken pipe".to_string()).describe(), "broken pipe");
    assert_eq!(Failure::ReadTimeout("deadline has elapsed".to_string()).describe(), "deadline has elapsed");
    assert_eq!(Failure::TransportError(String::new()).describe(), "transport error");
    assert_eq!(Failure::ReadTimeout(String::new()).describe(), "read timeout");
    assert_eq!(Failure::ConnectFailure.describe(), "connect failure");
    assert_eq!(Failure::HealthCheckFailure.describe(), "health check failure");
    assert_eq!(Failure::PoolExhausted.describe(), "pool exhausted");
    assert_eq!(Failure::UnknownDevice.describe(), "unknown device");
    assert_eq!(Failure::UnknownLocation.describe(), "unknown location");
}

#[test]
fn every_outcome_has_its_category() {
    assert_eq!(category(&None), "success");
    assert_eq!(category(&Some(Failure::ConnectFailure)), "connect_fail");
    assert_eq!(category(&Some(Failure::ReadTimeout("t".to_string()))), "read_timeout");
    assert_eq!(category(&Some(Failure::ProtocolException(2))), "protocol_exception");
    assert_eq!(category(&Some(Failure::PoolExhausted)), "pool_exhausted");
    assert_eq!(category(&Some(Failure::UnknownDevice)), "unknown_device");
    assert_eq!(category(&Some(Failure::UnknownLocation)), "unknown_location");
    assert_eq!(category(&Some(Failure::TransportError("t".to_string()))), "transport_error");
    assert_eq!(category(&Some(Failure::HealthCheckFailure)), "health_check_fail");
}

#[test]
fn connector_opens_a_live_session_when_connected() {
    let m = ModbusManager { addr: "10.0.0.7:502".to_string(), slave: 9 };
    let s = m.create(ConnectOutcome::Connected).unwrap();
    assert_eq!(s.addr, "10.0.0.7:502");
    assert_eq!(s.slave, 9);
    assert!(s.status);
}

#[test]
fn connector_fails_on_refusal_and_on_timeout() {
    let m = ModbusManager { addr: "10.0.0.7:502".to_string(), slave: 9 };
    assert!(matches!(m.create(ConnectOutcome::Refused), Err(modbus_gateway::modbus_manager::Error::Fail)));
    assert!(matches!(m.create(ConnectOutcome::TimedOut), Err(modbus_gateway::modbus_manager::Error::Fail)));
}

#[test]
fn recycle_goes_by_the_liveness_flag() {
    let m = ModbusManager { addr: "a:1".to_string(), slave: 1 };
    let mut s = Modbus { addr: "a:1".to_string(), slave: 1, status: true };
    assert!(m.recycle(&s).is_ok());
    s.status = false;
    assert!(m.recycle(&s).is_err());
}

#[test]
fn detach_changes_nothing() {
    let m = ModbusManager { addr: "a:1".to_string(), slave: 1 };
    let mut s = Modbus { addr: "a:1".to_string(), slave: 4, status: false };
    m.detach(&mut s);
    assert_eq!(s.addr, "a:1");
    assert_eq!(s.slave, 4);
    assert!(!s.status);
}

#[test]
fn probe_is_alive_only_when_its_read_succeeded() {
    assert!(is_connection_alive(&Ok(Ok(Ok(vec![0])))));
    assert!(is_connection_alive(&Ok(Ok(Ok(vec![])))));
    assert!(!is_connection_alive(&Ok(Ok(Err(2)))));
    assert!(!is_connection_alive(&Ok(Ok(Err(0x0B)))));
    assert!(!is_connection_alive(&Ok(Err("reset".to_string()))));
    assert!(!is_connection_alive(&Err("deadline has elapsed".to_string())));
}

#[test]
fn connector_limits_are_as_configured() {
    assert_eq!(CONNECT_TIMEOUT_MS, 1000);
    assert_eq!(PROBE_TIMEOUT_MS, 100);
    assert_eq!(PROBE_ADDRESS, 0);
    assert_eq!(PROBE_COUNT, 1);
}
