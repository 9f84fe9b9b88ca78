//! Provisioning pipeline for a single-board media server: the decisions of
//! the disk flash state machine and of the remote provisioning orchestrator,
//! with the pure pieces they rest on (device safety, progress windows,
//! single-flight lock, readiness polling, session handling, generated
//! documents).

pub mod text;
pub mod safety;
pub mod disk_info;
pub mod progress;
pub mod flash;
pub mod transfer;
pub mod poller;
pub mod session;
pub mod install;
pub mod store;
pub mod compose;
pub mod boot;
pub mod logging;
pub mod pattern;
pub mod template;
pub mod json;
pub mod services;
pub mod service_config;
pub mod image_index;
pub mod remote_cmd;
pub mod model;
