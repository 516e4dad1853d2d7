//! Endpoint resolution, navigation state and fetch planning for a sensor
//! telemetry dashboard, with machine-checked contracts.

pub mod dialog;
pub mod directory;
pub mod editor;
pub mod endpoint;
pub mod error;
pub mod fetch;
pub mod model;
pub mod navigation;
pub mod notice;
pub mod page;
pub mod sensor_data;
