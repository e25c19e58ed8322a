//! The connector of one device: what a connect attempt becomes, when a
//! session may be kept, and how a liveness probe is read.

use vstd::prelude::*;
use crate::outcome::{classified, RawReply};

verus! {

/// The time allowed to open a session, in milliseconds.
pub const CONNECT_TIMEOUT_MS: u64 = 1000;

/// The time allowed to a liveness probe, in milliseconds.
pub const PROBE_TIMEOUT_MS: u64 = 100;

/// The register at which a liveness probe reads.
pub const PROBE_ADDRESS: u16 = 0;

/// The number of registers that a liveness probe reads.
pub const PROBE_COUNT: u16 = 1;

/// The endpoint that the sessions of one pool are opened to.
#[derive(Clone, Debug)]
pub struct ModbusManager {
    pub addr: String,
    pub slave: u8,
}

/// One session: the endpoint it is connected to and its liveness flag.
#[derive(Debug, PartialEq, Eq)]
pub struct Modbus {
    pub addr: String,
    pub slave: u8,
    pub status: bool,
}

/// Why the connector could not hand out a session.
#[derive(Debug, PartialEq, Eq)]
pub enum Error {
    Fail,
}

/// How one bounded connect attempt ended.
#[derive(Clone, Copy, Debug)]
pub enum ConnectOutcome {
    /// The transport session is open.
    Connected,
    /// The endpoint refused or the transport failed.
    Refused,
    /// The connect timeout passed first.
    TimedOut,
}

impl ModbusManager {
    /// Turns the end of a connect attempt into a session or a failure: a
    /// live session to this endpoint when the attempt connected, `Fail` when
    /// it was refused or timed out. Never retries.
    pub fn create(&self, outcome: ConnectOutcome) -> (r: Result<Modbus, Error>)
        ensures
            r is Ok <==> outcome is Connected,
            r matches Ok(session) ==> session.addr == self.addr && session.slave == self.slave
                && session.status,
    {
        match outcome {
            ConnectOutcome::Connected => Ok(
                Modbus { addr: self.addr.clone(), slave: self.slave, status: true },
            ),
            ConnectOutcome::Refused => Err(Error::Fail),
            ConnectOutcome::TimedOut => Err(Error::Fail),
        }
    }

    /// Says whether a session that comes back may be kept: it may when its
    /// liveness flag is set. On `Fail` the caller closes the transport.
    pub fn recycle(&self, conn: &Modbus) -> (r: Result<(), Error>)
        ensures
            r is Ok <==> conn.status,
    {
        if conn.status {
            Ok(())
        } else {
            Err(Error::Fail)
        }
    }

    /// Called when a session leaves the pool for good. It is there for
    /// accounting alone and changes nothing.
    pub fn detach(&self, obj: &mut Modbus)
        ensures
            *final(obj) == *old(obj),
    {
    }
}

/// The probe passed: its one read brought a value, in time and over an
/// intact connection.
pub open spec fn probe_passes(probe: RawReply) -> bool {
    probe matches Ok(Ok(Ok(_)))
}

/// Reads a liveness probe: the session is alive when the read of the probe
/// succeeded, and dead after anything else: a timeout, a transport error,
/// or an exception with which the device answered.
pub fn is_connection_alive(probe: &RawReply) -> (alive: bool)
    ensures
        alive == (*probe matches Ok(Ok(Ok(_)))),
        alive == probe_passes(*probe),
        alive == (classified(*probe) is Success),
{
    match probe {
        Ok(Ok(Ok(_))) => true,
        _ => false,
    }
}

} // verus!
