use vstd::prelude::*;

verus! {

/// The settings of the service, as its settings document holds them.
#[derive(Debug)]
pub struct SettingsModel {
    pub inner: SettingsModelInner,
}

/// The addresses of the tracing and log collectors.
#[derive(Debug)]
pub struct SettingsModelInner {
    pub zipkin_url: String,
    pub seq_service_url: String,
}

} // verus!
