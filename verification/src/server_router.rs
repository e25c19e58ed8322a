//! The answer to a read of a device's registers by the device's name.

use vstd::prelude::*;
use crate::dispatcher::RequestOutcome;
use crate::outcome::{failure_text, Failure};

verus! {

/// What a register read answers: either the values that were read, or the
/// reason why none could be read.
#[derive(Debug, PartialEq, Eq)]
pub struct Response<T> {
    pub success: bool,
    pub error: String,
    pub value: Option<T>,
}

impl<T> Response<T> {
    /// The answer that carries `value` and no error text.
    pub fn success(value: T) -> (r: Self)
        ensures
            r.success,
            r.error@ == Seq::<char>::empty(),
            r.value == Some(value),
    {
        Response { success: true, error: String::new(), value: Some(value) }
    }

    /// The answer that carries `error` as its text and no value.
    pub fn error(error: String) -> (r: Self)
        ensures
            !r.success,
            r.error == error,
            r.value is None,
    {
        Response { success: false, error, value: None }
    }
}

/// What is said of a device name that is not configured.
pub open spec fn unknown_device_text(name: Seq<char>) -> Seq<char> {
    "不存在配置名为"@ + name + "的modbus配置！"@
}

/// The error text of an outcome: none for a success, the sentence that
/// names the device for an unknown device, the text of the failure
/// otherwise.
pub open spec fn error_text(outcome: RequestOutcome) -> Seq<char> {
    match outcome.result {
        Ok(_) => Seq::empty(),
        Err(Failure::UnknownDevice) => unknown_device_text(outcome.location_or_name@),
        Err(failure) => failure_text(failure),
    }
}

/// The values that an outcome carries, if it is a success.
pub open spec fn values_of(outcome: RequestOutcome) -> Option<Vec<u16>> {
    match outcome.result {
        Ok(values) => Some(values),
        Err(_) => None,
    }
}

/// Answers a read of a device's registers: the values where the read brought
/// them, and else `success: false` with a text that says why and is never
/// empty. For a device that is not configured the text names the device.
pub fn get_modbus_value(outcome: RequestOutcome) -> (response: Response<Vec<u16>>)
    ensures
        response.success == (outcome.result is Ok),
        response.value == values_of(outcome),
        response.error@ == error_text(outcome),
        !response.success ==> response.error@.len() > 0,
{
    proof {
        reveal_strlit("不存在配置名为");
    }
    match outcome.result {
        Ok(values) => Response::success(values),
        Err(Failure::UnknownDevice) => {
            let mut text = String::from_str("不存在配置名为");
            text.append(outcome.location_or_name.as_str());
            text.append("的modbus配置！");
            Response::error(text)
        },
        Err(failure) => Response::error(failure.describe()),
    }
}

/// The greeting for `name`.
pub fn greet(name: &str) -> (text: String)
    ensures
        text@ == "Hello "@ + name@ + "!"@,
{
    let mut text = String::from_str("Hello ");
    text.append(name);
    text.append("!");
    text
}

} // verus!
