use vstd::prelude::*;

verus! {

/// Settings that name the address of the log server.
pub trait GetLogStashUrl {
    /// The address that log records are shipped to.
    fn get_logstash_url(&self) -> String;
}

} // verus!
