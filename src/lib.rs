//! Core of a biometric hardware security token: the fingerprint-sensor
//! session and its workflows, template similarity, the boot-time security
//! policy, the tunnel session guard and the provisioning exchange.

pub mod access;
pub mod boot;
pub mod commands;
pub mod config;
pub mod errors;
pub mod heapless;
pub mod logic;
pub mod matcher;
pub mod provisioning;
pub mod result_code;
pub mod session;
pub mod tunnel;
