//! The configuration of the service, fixed at startup.

use vstd::prelude::*;
use vstd::string::*;
use crate::text::{decimal, decimal_u64};

verus! {

/// What the service is started with: all four values are given at startup
/// and do not change afterwards.
#[derive(Debug, Clone, PartialEq, Eq)]
pub struct ServiceConfig {
    /// The command line to run on every trigger.
    pub cmd: String,
    /// The time between two triggers of the self-poller, in milliseconds.
    pub interval: u32,
    /// The port the endpoint listens on.
    pub port: u16,
    /// Where the log configuration is read from.
    pub log_config_path: String,
}

/// The mathematical content of a [`ServiceConfig`].
pub struct ServiceConfigView {
    pub cmd: Seq<char>,
    pub interval: nat,
    pub port: nat,
    pub log_config_path: Seq<char>,
}

impl View for ServiceConfig {
    type V = ServiceConfigView;

    open spec fn view(&self) -> ServiceConfigView {
        ServiceConfigView {
            cmd: self.cmd@,
            interval: self.interval as nat,
            port: self.port as nat,
            log_config_path: self.log_config_path@,
        }
    }
}

/// The address the endpoint binds to: every interface, on `port`.
pub open spec fn listen_address_of(port: nat) -> Seq<char> {
    "0.0.0.0:"@ + decimal(port)
}

/// The URL of the trigger operation of the endpoint on this machine.
pub open spec fn trigger_url_of(port: nat) -> Seq<char> {
    "http://localhost:"@ + decimal(port) + "/execute"@
}

impl ServiceConfig {
    /// A configuration from its four parts.
    pub fn new(cmd: String, interval: u32, port: u16, log_config_path: String) -> (config: Self)
        ensures
            config@ == (ServiceConfigView {
                cmd: cmd@,
                interval: interval as nat,
                port: port as nat,
                log_config_path: log_config_path@,
            }),
    {
        ServiceConfig { cmd, interval, port, log_config_path }
    }

    /// The time the self-poller sleeps between two triggers, in milliseconds.
    pub fn interval_millis(&self) -> (millis: u64)
        ensures
            millis == self@.interval,
    {
        self.interval as u64
    }

    /// The address to bind the endpoint to.
    pub fn listen_address(&self) -> (address: String)
        ensures
            address@ == listen_address_of(self@.port),
    {
        let mut address = String::from_str("0.0.0.0:");
        let port = decimal_u64(self.port as u64);
        address.append(port.as_str());
        address
    }

    /// The URL the self-poller posts to.
    pub fn trigger_url(&self) -> (url: String)
        ensures
            url@ == trigger_url_of(self@.port),
    {
        let mut url = String::from_str("http://localhost:");
        let port = decimal_u64(self.port as u64);
        url.append(port.as_str());
        url.append("/execute");
        url
    }
}

} // verus!
