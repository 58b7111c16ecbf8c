//! Verified core of the embedded services: event bitfields, power policy decisions,
//! transformer result views, and supporting data types.
pub mod type_c;
pub mod transformers;
pub mod ecs;
pub mod power;
pub mod power_policy_service;
pub mod bus_error;
pub mod fw_update;
pub mod oem;
pub mod intrusive_list;
pub mod ipc;
pub mod thermal;
pub mod event;
pub mod cfu;
pub mod espi;
