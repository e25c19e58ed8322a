//! Classification of one bounded protocol operation, and what follows from
//! it for the session that served it and for the request that asked for it.

use vstd::prelude::*;

verus! {

/// One bounded operation as the transport reports it, from the outside in:
/// the time budget (its error is the timer's text), the connection (its
/// error is the transport's text), and the device's answer (its error is the
/// exception code that the device sent). A read brings the register values;
/// a write brings none.
pub type RawReply = Result<Result<Result<Vec<u16>, u8>, String>, String>;

/// The four things a bounded operation can come to.
#[derive(Debug, PartialEq, Eq)]
pub enum OperationOutcome {
    /// The device did as asked; these are the register values of a read.
    Success(Vec<u16>),
    /// The device answered and rejected the request with this code.
    ProtocolException(u8),
    /// The connection was dropped or reset; the text is the transport's.
    TransportError(String),
    /// No answer came within the time budget; the text is the timer's.
    Timeout(String),
}

/// Everything that can go wrong between a request and its answer.
#[derive(Clone, Debug, PartialEq, Eq)]
pub enum Failure {
    /// No session could be opened to the device.
    ConnectFailure,
    /// A session that was handed back did not pass the liveness probe.
    HealthCheckFailure,
    /// The operation got no answer within its time budget.
    ReadTimeout(String),
    /// The device rejected the operation with this exception code.
    ProtocolException(u8),
    /// The connection failed while the operation was under way.
    TransportError(String),
    /// Every session of the device is in use and none came free in time.
    PoolExhausted,
    /// No device of that name is configured.
    UnknownDevice,
    /// No location of that code, or no route of that pair, is registered.
    UnknownLocation,
}

/// The class that a raw reply falls into.
pub open spec fn classified(raw: RawReply) -> OperationOutcome {
    match raw {
        Ok(Ok(Ok(values))) => OperationOutcome::Success(values),
        Ok(Ok(Err(code))) => OperationOutcome::ProtocolException(code),
        Ok(Err(text)) => OperationOutcome::TransportError(text),
        Err(text) => OperationOutcome::Timeout(text),
    }
}

/// Sorts a raw reply into exactly one of the four outcomes.
pub fn classify(raw: RawReply) -> (outcome: OperationOutcome)
    ensures
        outcome == classified(raw),
{
    match raw {
        Ok(Ok(Ok(values))) => OperationOutcome::Success(values),
        Ok(Ok(Err(code))) => OperationOutcome::ProtocolException(code),
        Ok(Err(text)) => OperationOutcome::TransportError(text),
        Err(text) => OperationOutcome::Timeout(text),
    }
}

/// Whether the session that served an operation is still usable: it is when the
/// device answered, with values or with an exception, and it is not after a
/// transport error or a timeout.
pub open spec fn session_survives(outcome: OperationOutcome) -> bool {
    outcome is Success || outcome is ProtocolException
}

/// The liveness to report to the pool for the session that served `outcome`.
pub fn reported_liveness(outcome: &OperationOutcome) -> (alive: bool)
    ensures
        alive == session_survives(*outcome),
{
    match outcome {
        OperationOutcome::Success(_) => true,
        OperationOutcome::ProtocolException(_) => true,
        OperationOutcome::TransportError(_) => false,
        OperationOutcome::Timeout(_) => false,
    }
}

/// The text that the protocol codec prints for an exception code.
pub open spec fn exception_description(code: u8) -> Seq<char> {
    if code == 0x01 {
        "Illegal function"@
    } else if code == 0x02 {
        "Illegal data address"@
    } else if code == 0x03 {
        "Illegal data value"@
    } else if code == 0x04 {
        "Server device failure"@
    } else if code == 0x05 {
        "Acknowledge"@
    } else if code == 0x06 {
        "Server device busy"@
    } else if code == 0x08 {
        "Memory parity error"@
    } else if code == 0x0A {
        "Gateway path unavailable"@
    } else if code == 0x0B {
        "Gateway target device failed to respond"@
    } else {
        "Custom"@
    }
}

/// Calls `tokio_modbus::ExceptionCode::new` and prints the code it gives
/// with its `Display` impl. Not proved: that the codec maps the nine codes
/// it knows to the texts listed in `exception_description`, and every other
/// code to "Custom".
#[verifier::external_body]
fn exception_text(code: u8) -> (text: String)
    ensures
        text@ == exception_description(code),
{
    tokio_modbus::ExceptionCode::new(code).to_string()
}

/// The values or the failure that an outcome stands for.
pub open spec fn result_of(outcome: OperationOutcome) -> Result<Vec<u16>, Failure> {
    match outcome {
        OperationOutcome::Success(values) => Ok(values),
        OperationOutcome::ProtocolException(code) => Err(Failure::ProtocolException(code)),
        OperationOutcome::TransportError(text) => Err(Failure::TransportError(text)),
        OperationOutcome::Timeout(text) => Err(Failure::ReadTimeout(text)),
    }
}

/// What a failure is called where outcomes are counted.
pub open spec fn category_of(failure: Option<Failure>) -> Seq<char> {
    match failure {
        None => "success"@,
        Some(Failure::ConnectFailure) => "connect_fail"@,
        Some(Failure::HealthCheckFailure) => "health_check_fail"@,
        Some(Failure::ReadTimeout(_)) => "read_timeout"@,
        Some(Failure::ProtocolException(_)) => "protocol_exception"@,
        Some(Failure::TransportError(_)) => "transport_error"@,
        Some(Failure::PoolExhausted) => "pool_exhausted"@,
        Some(Failure::UnknownDevice) => "unknown_device"@,
        Some(Failure::UnknownLocation) => "unknown_location"@,
    }
}

/// The name of the outcome category of a dispatch that ended in `failure`,
/// or in success where there is none.
pub fn category(failure: &Option<Failure>) -> (name: &'static str)
    ensures
        name@ == category_of(*failure),
{
    match failure {
        None => "success",
        Some(Failure::ConnectFailure) => "connect_fail",
        Some(Failure::HealthCheckFailure) => "health_check_fail",
        Some(Failure::ReadTimeout(_)) => "read_timeout",
        Some(Failure::ProtocolException(_)) => "protocol_exception",
        Some(Failure::TransportError(_)) => "transport_error",
        Some(Failure::PoolExhausted) => "pool_exhausted",
        Some(Failure::UnknownDevice) => "unknown_device",
        Some(Failure::UnknownLocation) => "unknown_location",
    }
}

/// `text` where it says something, and `phrase` where it is empty.
pub open spec fn text_or(text: Seq<char>, phrase: Seq<char>) -> Seq<char> {
    if text.len() == 0 {
        phrase
    } else {
        text
    }
}

/// The human-readable text of a failure: what the timer, the transport or
/// the codec said where one of them spoke, and a fixed phrase where none
/// did or where what was said is empty.
pub open spec fn failure_text(failure: Failure) -> Seq<char> {
    match failure {
        Failure::ConnectFailure => "connect failure"@,
        Failure::HealthCheckFailure => "health check failure"@,
        Failure::ReadTimeout(text) => text_or(text@, "read timeout"@),
        Failure::ProtocolException(code) => exception_description(code),
        Failure::TransportError(text) => text_or(text@, "transport error"@),
        Failure::PoolExhausted => "pool exhausted"@,
        Failure::UnknownDevice => "unknown device"@,
        Failure::UnknownLocation => "unknown location"@,
    }
}

/// The codec has a text for every exception code.
pub proof fn lemma_exception_described(code: u8)
    ensures
        exception_description(code).len() > 0,
{
    reveal_strlit("Illegal function");
    reveal_strlit("Illegal data address");
    reveal_strlit("Illegal data value");
    reveal_strlit("Server device failure");
    reveal_strlit("Acknowledge");
    reveal_strlit("Server device busy");
    reveal_strlit("Memory parity error");
    reveal_strlit("Gateway path unavailable");
    reveal_strlit("Gateway target device failed to respond");
    reveal_strlit("Custom");
}

/// Every failure has a text that says something.
pub proof fn lemma_failure_described(failure: Failure)
    ensures
        failure_text(failure).len() > 0,
{
    reveal_strlit("connect failure");
    reveal_strlit("health check failure");
    reveal_strlit("read timeout");
    reveal_strlit("transport error");
    reveal_strlit("pool exhausted");
    reveal_strlit("unknown device");
    reveal_strlit("unknown location");
    match failure {
        Failure::ProtocolException(code) => {
            lemma_exception_described(code);
        },
        _ => {},
    }
}

/// `text` where it says something, and `phrase` where it is empty.
fn said_or(text: &String, phrase: &str) -> (said: String)
    ensures
        said@ == text_or(text@, phrase@),
{
    if text.as_str().is_empty() {
        String::from_str(phrase)
    } else {
        text.clone()
    }
}

impl Failure {
    /// The text to show for this failure. It is never empty.
    pub fn describe(&self) -> (text: String)
        ensures
            text@ == failure_text(*self),
            text@.len() > 0,
    {
        proof {
            lemma_failure_described(*self);
        }
        match self {
            Failure::ConnectFailure => String::from_str("connect failure"),
            Failure::HealthCheckFailure => String::from_str("health check failure"),
            Failure::ReadTimeout(text) => said_or(text, "read timeout"),
            Failure::ProtocolException(code) => exception_text(*code),
            Failure::TransportError(text) => said_or(text, "transport error"),
            Failure::PoolExhausted => String::from_str("pool exhausted"),
            Failure::UnknownDevice => String::from_str("unknown device"),
            Failure::UnknownLocation => String::from_str("unknown location"),
        }
    }
}

impl OperationOutcome {
    /// The values of a success, or the failure that this outcome stands
    /// for.
    pub fn into_result(self) -> (result: Result<Vec<u16>, Failure>)
        ensures
            result == result_of(self),
    {
        match self {
            OperationOutcome::Success(values) => Ok(values),
            OperationOutcome::ProtocolException(code) => Err(Failure::ProtocolException(code)),
            OperationOutcome::TransportError(text) => Err(Failure::TransportError(text)),
            OperationOutcome::Timeout(text) => Err(Failure::ReadTimeout(text)),
        }
    }
}

} // verus!
