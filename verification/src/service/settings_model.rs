use vstd::prelude::*;

use crate::app_ctx::GetLogStashUrl;

verus! {

/// The settings of the server, as its settings document holds them.
#[derive(Debug, Clone)]
pub struct SettingsModel {
    pub inner: SettingsModelInner,
}

/// The addresses of the tracing and log collectors.
#[derive(Debug, Clone)]
pub struct SettingsModelInner {
    pub zipkin_url: String,
    pub seq_service_url: String,
    pub log_stash_url: String,
}

impl GetLogStashUrl for SettingsModel {
    /// The configured log server address.
    fn get_logstash_url(&self) -> (url: String)
        ensures
            url@ == self.inner.log_stash_url@,
    {
        self.inner.log_stash_url.clone()
    }
}

} // verus!
