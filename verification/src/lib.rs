//! Sensor-to-cloud telemetry: Modbus-RTU framing for the field controller and
//! the host-side ingestion rules (line parsing, pair aggregation, line-protocol
//! encoding and the store-and-forward decisions).

pub mod crc;
pub mod modbus;
pub mod text;
pub mod lineproto;
pub mod fields;
pub mod ingest;
pub mod store;
pub mod controller;
pub mod pipeline;
