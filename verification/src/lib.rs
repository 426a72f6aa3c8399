//! A service template: settings loading, shutdown reporting, log shipping and a
//! book store example, with the decisions of each stated and proved.

pub mod app_ctx;
pub mod application;
pub mod configuration;
pub mod domain;
pub mod server;
pub mod service;
pub mod services;
pub mod settings_model;
pub mod telemetry;
