//! Gateway core for a fleet of Modbus devices: per-device session pools,
//! bounded protocol operations, outcome classification and location routing.

pub mod app_config;
pub mod dispatcher;
pub mod location_router;
pub mod location_service;
pub mod lookup;
pub mod modbus_manager;
pub mod outcome;
pub mod pool;
pub mod registry;
pub mod server_router;
pub mod trace_middleware;
