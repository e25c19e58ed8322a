//! The configuration of the gateway: where it listens and which devices it
//! serves.

use vstd::prelude::*;
use crate::location_router::{LINE_ONE, LINE_TWO};
use crate::modbus_manager::ModbusManager;

verus! {

/// Where the gateway listens.
#[derive(Debug)]
pub struct ServerConfig {
    pub address: String,
}

/// One device: its address as host and port, its unit id and its name.
#[derive(Debug)]
pub struct Modbus {
    pub address: String,
    pub slave_id: u8,
    pub name: String,
}

/// The devices, in the order of the configuration.
#[derive(Debug)]
pub struct ModbusConfig {
    pub configs: Vec<Modbus>,
}

/// The whole configuration.
#[derive(Debug)]
pub struct AppConfig {
    pub server: ServerConfig,
    pub modbus: ModbusConfig,
}

impl Modbus {
    /// The endpoint that the sessions of this device are opened to.
    pub open spec fn endpoint(&self) -> ModbusManager {
        ModbusManager { addr: self.address, slave: self.slave_id }
    }

    /// The connector of this device.
    pub fn manager(&self) -> (manager: ModbusManager)
        ensures
            manager == self.endpoint(),
    {
        ModbusManager { addr: self.address.clone(), slave: self.slave_id }
    }
}

/// The text of one decimal digit.
pub open spec fn digit_text(digit: nat) -> Seq<char> {
    if digit == 0 {
        "0"@
    } else if digit == 1 {
        "1"@
    } else if digit == 2 {
        "2"@
    } else if digit == 3 {
        "3"@
    } else if digit == 4 {
        "4"@
    } else if digit == 5 {
        "5"@
    } else if digit == 6 {
        "6"@
    } else if digit == 7 {
        "7"@
    } else if digit == 8 {
        "8"@
    } else {
        "9"@
    }
}

/// The decimal text of a number, without leading zeros.
pub open spec fn decimal_text(n: nat) -> Seq<char>
    decreases n,
{
    if n < 10 {
        digit_text(n)
    } else {
        decimal_text(n / 10) + digit_text(n % 10)
    }
}

/// An address as text: the host, a colon and the port in decimal.
pub open spec fn address_text(host: Seq<char>, port: u32) -> Seq<char> {
    host + ":"@ + decimal_text(port as nat)
}

fn digit(d: u32) -> (text: &'static str)
    requires
        d < 10,
    ensures
        text@ == digit_text(d as nat),
{
    if d == 0 {
        "0"
    } else if d == 1 {
        "1"
    } else if d == 2 {
        "2"
    } else if d == 3 {
        "3"
    } else if d == 4 {
        "4"
    } else if d == 5 {
        "5"
    } else if d == 6 {
        "6"
    } else if d == 7 {
        "7"
    } else if d == 8 {
        "8"
    } else {
        "9"
    }
}

/// The decimal text of `n`.
pub fn decimal(n: u32) -> (text: String)
    ensures
        text@ == decimal_text(n as nat),
{
    let mut text = String::from_str(digit(n % 10));
    let mut rest: u32 = n / 10;
    while rest > 0
        invariant
            decimal_text(n as nat) == if rest == 0 {
                text@
            } else {
                decimal_text(rest as nat) + text@
            },
        decreases rest,
    {
        let longer = String::from_str(digit(rest % 10)).concat(text.as_str());
        proof {
            if rest >= 10 {
                assert(decimal_text(rest as nat) + text@ == decimal_text((rest / 10) as nat) + (
                digit_text((rest % 10) as nat) + text@));
            }
        }
        text = longer;
        rest = rest / 10;
    }
    text
}

/// The address of a device: its host, a colon and its port.
pub fn address(host: &str, port: u32) -> (text: String)
    ensures
        text@ == address_text(host@, port),
{
    let mut text = String::from_str(host);
    text.append(":");
    text.append(decimal(port).as_str());
    text
}

impl Modbus {
    /// The device called `name` at `host` and `port`, with unit id `slave_id`.
    pub fn at(name: &str, host: &str, port: u32, slave_id: u8) -> (device: Self)
        ensures
            device.name@ == name@,
            device.address@ == address_text(host@, port),
            device.slave_id == slave_id,
    {
        Modbus { address: address(host, port), slave_id, name: String::from_str(name) }
    }
}

impl ModbusConfig {
    /// The devices of the site: one for each line, each under the name by
    /// which the routing tables call it.
    pub fn site() -> (config: Self)
        ensures
            config.configs@.len() == 2,
            config.configs@[0].name@ == LINE_ONE@,
            config.configs@[0].address@ == address_text(LINE_ONE@, 5522),
            config.configs@[0].slave_id == 1,
            config.configs@[1].name@ == LINE_TWO@,
            config.configs@[1].address@ == address_text(LINE_TWO@, 2000),
            config.configs@[1].slave_id == 1,
    {
        let mut configs: Vec<Modbus> = Vec::new();
        configs.push(Modbus::at(LINE_ONE, LINE_ONE, 5522, 1));
        configs.push(Modbus::at(LINE_TWO, LINE_TWO, 2000, 1));
        ModbusConfig { configs }
    }
}

} // verus!
