use modbus_gateway::app_config::{address, decimal, Modbus as Device, ModbusConfig};
use modbus_gateway::location_router::{
    ControlMapping, LocationEntry, LocationRouter, LINE_ONE, LINE_TWO,
};
use modbus_gateway::pool::{Checkout, SessionState, WaitPolicy};
use modbus_gateway::registry::{PoolRegistry, MAX_SIZE};

fn location(router: &LocationRouter, code: &str) -> Option<(String, u16, String)> {
    router
        .resolve_location(code)
        .map(|e| (e.device_key.clone(), e.register_offset, e.alias.clone()))
}

fn control(router: &LocationRouter, source: &str, destination: &str) -> Option<(String, u16, u16, String)> {
    router
        .resolve_control(source, destination)
        .map(|m| (m.device_key.clone(), m.off_coil, m.on_coil, m.description.clone()))
}

#[test]
fn empty_router_resolves_nothing() {
    let router = LocationRouter::new();
    assert_eq!(router.location_count(), 0);
    assert!(router.resolve_location("0").is_none());
    assert!(router.resolve_control("a", "b").is_none());
}

#[test]
fn site_locations_resolve_to_device_register_and_alias() {
    let router = LocationRouter::site();
    assert_eq!(router.location_count(), 6);
    assert_eq!(location(&router, "0"), Some(("127.0.0.1".to_string(), 0, "test".to_string())));
    assert_eq!(
        location(&router, "5504-1-1-1"),
        Some(("127.0.0.1".to_string(), 5, "翻包区出口".to_string()))
    );
    assert_eq!(
        location(&router, "5106-1-1-1"),
        Some(("127.0.0.1".to_string(), 3, "一楼流水线出口".to_string()))
    );
    assert_eq!(
        location(&router, "5101-1-1-1"),
        Some(("127.0.0.1".to_string(), 2, "二楼流水线靠近机房入口".to_string()))
    );
    assert_eq!(
        location(&router, "5102-1-1-1"),
        Some(("127.0.0.1".to_string(), 1, "二楼流水线远离机房入口".to_string()))
    );
    assert_eq!(
        location(&router, "5105-1-1-1"),
        Some(("192.168.70.102".to_string(), 1, "成品流水线出口".to_string()))
    );
}

#[test]
fn unregistered_location_resolves_to_none() {
    let router = LocationRouter::site();
    assert_eq!(location(&router, "9999-1-1-1"), None);
    assert_eq!(location(&router, ""), None);
    assert_eq!(location(&router, "5101-1-1"), None);
    assert_eq!(location(&router, "SC01-2"), None);
}

#[test]
fn site_controls_resolve_by_source_and_destination() {
    let router = LocationRouter::site();
    assert_eq!(
        control(&router, "5104-1-1-1", "5104-1-1-1"),
        Some(("192.168.70.102".to_string(), 10, 6, "成品流水线不通过".to_string()))
    );
    assert_eq!(
        control(&router, "5104-1-1-1", "5105-1-1-1"),
        Some(("192.168.70.102".to_string(), 10, 16, "成品流水线通过".to_string()))
    );
    assert_eq!(
        control(&router, "5103-1-1-1", "5101-1-1-1"),
        Some(("127.0.0.1".to_string(), 0, 26, "2楼半成品流水线主出口送至靠近机房入库点".to_string()))
    );
    assert_eq!(
        control(&router, "5502-1-1-1", "5102-1-1-1"),
        Some(("127.0.0.1".to_string(), 0, 16, "2楼半成品流水线交叉口送远离近机房入库点".to_string()))
    );
    assert_eq!(
        control(&router, "5503-1-1-1", "5102-1-1-1"),
        Some(("127.0.0.1".to_string(), 0, 16, "1楼流水线入口到2楼入库接驳点".to_string()))
    );
}

#[test]
fn every_site_route_is_found() {
    let router = LocationRouter::site();
    let routes = [
        ("5104-1-1-1", "5104-1-1-1", 6),
        ("5104-1-1-1", "5105-1-1-1", 16),
        ("5501-1-1-1", "5106-1-1-1", 6),
        ("5501-1-1-1", "5504-1-1-1", 6),
        ("5103-1-1-1", "5106-1-1-1", 16),
        ("5103-1-1-1", "5504-1-1-1", 16),
        ("5103-1-1-1", "5505-1-1-1", 6),
        ("5103-1-1-1", "5101-1-1-1", 26),
        ("5103-1-1-1", "5102-1-1-1", 26),
        ("5502-1-1-1", "5505-1-1-1", 6),
        ("5502-1-1-1", "5101-1-1-1", 26),
        ("5502-1-1-1", "5102-1-1-1", 16),
        ("5101-1-1-1", "5101-1-1-1", 6),
        ("5102-1-1-1", "5102-1-1-1", 6),
        ("5106-1-1-1", "5504-1-1-1", 6),
        ("5106-1-1-1", "5106-1-1-1", 16),
        ("5107-1-1-1", "5504-1-1-1", 6),
        ("5107-1-1-1", "5505-1-1-1", 16),
        ("5107-1-1-1", "5101-1-1-1", 16),
        ("5107-1-1-1", "5102-1-1-1", 16),
        ("5503-1-1-1", "5106-1-1-1", 6),
        ("5503-1-1-1", "5505-1-1-1", 16),
        ("5503-1-1-1", "5101-1-1-1", 16),
        ("5503-1-1-1", "5102-1-1-1", 16),
    ];
    for (source, destination, on_coil) in routes {
        let m = router.resolve_control(source, destination).unwrap();
        assert_eq!(m.on_coil, on_coil);
        assert_eq!(m.source, source);
        assert_eq!(m.destination, destination);
    }
}

#[test]
fn control_needs_both_ends_in_their_order() {
    let router = LocationRouter::site();
    assert_eq!(control(&router, "5105-1-1-1", "5104-1-1-1"), None);
    assert_eq!(control(&router, "5104-1-1-1", "5106-1-1-1"), None);
    assert_eq!(control(&router, "5104-1-1-1", ""), None);
    assert_eq!(control(&router, "", "5104-1-1-1"), None);
}

#[test]
fn later_entry_replaces_the_earlier_one() {
    let mut router = LocationRouter::new();
    router.add_location(LocationEntry::new("L1", "A", 1, "first"));
    router.add_location(LocationEntry::new("L2", "A", 2, "other"));
    router.add_location(LocationEntry::new("L1", "B", 7, "second"));
    assert_eq!(location(&router, "L1"), Some(("B".to_string(), 7, "second".to_string())));
    assert_eq!(location(&router, "L2"), Some(("A".to_string(), 2, "other".to_string())));
    router.add_control(ControlMapping::new("L1", "L2", "A", 0, 6, "one"));
    router.add_control(ControlMapping::new("L1", "L2", "B", 10, 16, "two"));
    assert_eq!(control(&router, "L1", "L2"), Some(("B".to_string(), 10, 16, "two".to_string())));
    assert_eq!(router.location_count(), 3);
    assert_eq!(router.location_at(0).alias, "first");
}

#[test]
fn gateway_holds_one_session_to_a_device() {
    assert_eq!(MAX_SIZE, 1);
}

#[test]
fn site_lines_are_the_two_devices() {
    assert_eq!(LINE_ONE, "127.0.0.1");
    assert_eq!(LINE_TWO, "192.168.70.102");
}

fn device(name: &str, address: &str, slave_id: u8) -> Device {
    Device { address: address.to_string(), slave_id, name: name.to_string() }
}

#[test]
fn device_gives_its_connector() {
    let m = device("A", "10.1.1.1:502", 3).manager();
    assert_eq!(m.addr, "10.1.1.1:502");
    assert_eq!(m.slave, 3);
}

#[test]
fn registry_has_one_empty_pool_for_each_device() {
    let config = ModbusConfig {
        configs: vec![device("A", "10.1.1.1:502", 1), device("B", "10.1.1.2:502", 2)],
    };
    let registry = PoolRegistry::from_config(&config, 1, WaitPolicy::FailFast);
    assert_eq!(registry.len(), 2);
    assert_eq!(registry.find("A"), Some(0));
    assert_eq!(registry.find("B"), Some(1));
    assert_eq!(registry.find("missing"), None);
    assert_eq!(registry.find(""), None);
    let b = registry.pool(1).unwrap();
    assert_eq!(b.manager().addr, "10.1.1.2:502");
    assert_eq!(b.manager().slave, 2);
    assert_eq!(b.max_size(), 1);
    assert_eq!(b.size(), 0);
    assert_eq!(registry.manager(0).addr, "10.1.1.1:502");
    assert!(registry.pool(2).is_none());
}

#[test]
fn later_device_of_a_name_replaces_the_earlier_one() {
    let config = ModbusConfig {
        configs: vec![
            device("A", "10.1.1.1:502", 1),
            device("B", "10.1.1.2:502", 2),
            device("A", "10.1.1.3:502", 3),
        ],
    };
    let registry = PoolRegistry::from_config(&config, 1, WaitPolicy::FailFast);
    assert_eq!(registry.find("A"), Some(2));
    assert_eq!(registry.manager(2).addr, "10.1.1.3:502");
}

#[test]
fn pools_of_different_devices_do_not_touch_each_other() {
    let config = ModbusConfig {
        configs: vec![device("A", "10.1.1.1:502", 1), device("B", "10.1.1.2:502", 2)],
    };
    let mut registry = PoolRegistry::from_config(&config, 1, WaitPolicy::FailFast);
    assert_eq!(registry.checkout(0, 0), Some(Checkout::Create(0)));
    assert_eq!(registry.connected(0, 0, true), Some(Ok(())));
    assert_eq!(registry.checkout(0, 0), Some(Checkout::Exhausted));
    assert_eq!(registry.pool(1).unwrap().size(), 0);
    assert_eq!(registry.checkout(1, 0), Some(Checkout::Create(0)));
    assert_eq!(registry.pool(0).unwrap().state(0), Some(SessionState::InUse));
    assert_eq!(registry.pool(1).unwrap().state(0), Some(SessionState::Connecting));
}

#[test]
fn registry_ignores_a_pool_that_is_not_there() {
    let mut registry = PoolRegistry::new();
    assert_eq!(registry.len(), 0);
    assert_eq!(registry.checkout(0, 0), None);
    assert_eq!(registry.connected(0, 0, true), None);
    assert_eq!(registry.probed(3, 0, true), None);
    let s = modbus_gateway::modbus_manager::Modbus { addr: String::new(), slave: 0, status: true };
    assert_eq!(registry.hand_back(1, 0, &s), None);
    registry.add(&device("A", "10.1.1.1:502", 1), 2, WaitPolicy::Wait(50));
    assert_eq!(registry.find("A"), Some(0));
    assert_eq!(registry.pool(0).unwrap().max_size(), 2);
}

#[test]
fn decimal_text_has_no_leading_zeros() {
    assert_eq!(decimal(0), "0");
    assert_eq!(decimal(7), "7");
    assert_eq!(decimal(10), "10");
    assert_eq!(decimal(502), "502");
    assert_eq!(decimal(5522), "5522");
    assert_eq!(decimal(65535), "65535");
    assert_eq!(decimal(1000000), "1000000");
    assert_eq!(decimal(4294967295), "4294967295");
}

#[test]
fn address_is_host_colon_port() {
    assert_eq!(address("127.0.0.1", 5522), "127.0.0.1:5522");
    assert_eq!(address("192.168.70.102", 2000), "192.168.70.102:2000");
    assert_eq!(address("", 0), ":0");
}

#[test]
fn site_has_one_device_for_each_line() {
    let site = ModbusConfig::site();
    assert_eq!(site.configs.len(), 2);
    assert_eq!(site.configs[0].name, "127.0.0.1");
    assert_eq!(site.configs[0].address, "127.0.0.1:5522");
    assert_eq!(site.configs[0].slave_id, 1);
    assert_eq!(site.configs[1].name, "192.168.70.102");
    assert_eq!(site.configs[1].address, "192.168.70.102:2000");
    assert_eq!(site.configs[1].slave_id, 1);
    let d = Device::at("press", "10.0.0.9", 502, 17);
    assert_eq!(d.name, "press");
    assert_eq!(d.address, "10.0.0.9:502");
    assert_eq!(d.slave_id, 17);
}

#[test]
fn every_site_location_has_a_site_device() {
    let router = LocationRouter::site();
    let registry = PoolRegistry::from_config(&ModbusConfig::site(), 1, WaitPolicy::FailFast);
    for i in 0..router.location_count() {
        assert!(registry.find(&router.location_at(i).device_key).is_some());
    }
}
