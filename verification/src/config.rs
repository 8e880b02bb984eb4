//! The hook configuration: which contract to poll, through which JSON-RPC
//! endpoint, where to deliver the result, and how often.

use vstd::prelude::*;

verus! {

/// The mathematical content of a [`HookConfig`]: the three fields as
/// character sequences, and the interval.
pub ghost struct HookModel {
    pub rpc_endpoint: Seq<char>,
    pub contract_address: Seq<char>,
    pub callback_url: Seq<char>,
    pub interval_seconds: u64,
}

impl HookModel {
    /// A well-formed configuration: all three strings non-empty and a
    /// positive polling interval.
    pub open spec fn valid(self) -> bool {
        &&& self.interval_seconds > 0
        &&& self.rpc_endpoint.len() > 0
        &&& self.contract_address.len() > 0
        &&& self.callback_url.len() > 0
    }
}

/// The singleton record that describes the one hook the relay serves.
pub struct HookConfig {
    /// URL of the JSON-RPC provider.
    pub rpc_endpoint: String,
    /// Target contract, in textual address form.
    pub contract_address: String,
    /// Destination for webhook POSTs.
    pub callback_url: String,
    /// Polling period in seconds; always positive.
    pub interval_seconds: u64,
}

/// A rejected initialization parameter. Checks run in field order:
/// interval first, then the three string fields; last, setup rejects a
/// callback URL that yields no host.
#[derive(Clone, Copy, Debug, PartialEq, Eq, Structural)]
pub enum ConfigError {
    /// `interval_seconds` was zero.
    ZeroInterval,
    /// `rpc_endpoint` was empty.
    EmptyRpcEndpoint,
    /// `contract_address` was empty.
    EmptyContractAddress,
    /// `callback_url` was empty.
    EmptyCallbackUrl,
    /// `callback_url` does not parse as a URL with a host. Raised by setup
    /// ([`crate::scheduler::Relay::configure`]), which consults the URL
    /// parser; the structural checks of [`HookConfig::new`] never raise it.
    UnparsableCallbackUrl,
}

impl View for HookConfig {
    type V = HookModel;

    open spec fn view(&self) -> HookModel {
        HookModel {
            rpc_endpoint: self.rpc_endpoint@,
            contract_address: self.contract_address@,
            callback_url: self.callback_url@,
            interval_seconds: self.interval_seconds,
        }
    }
}

impl HookConfig {
    /// A well-formed configuration: all three strings non-empty and a
    /// positive polling interval.
    pub open spec fn valid(self) -> bool {
        self@.valid()
    }

    /// Validates the four parameters and builds the configuration.
    ///
    /// Succeeds exactly on valid input; each error names the first offending
    /// parameter in field order.
    pub fn new(
        interval_seconds: u64,
        rpc_endpoint: String,
        contract_address: String,
        callback_url: String,
    ) -> (r: Result<HookConfig, ConfigError>)
        ensures
            match r {
                Ok(c) => {
                    &&& c.valid()
                    &&& c.interval_seconds == interval_seconds
                    &&& c.rpc_endpoint@ == rpc_endpoint@
                    &&& c.contract_address@ == contract_address@
                    &&& c.callback_url@ == callback_url@
                },
                Err(e) => match e {
                    ConfigError::ZeroInterval => interval_seconds == 0,
                    ConfigError::EmptyRpcEndpoint => interval_seconds > 0 && rpc_endpoint@.len() == 0,
                    ConfigError::EmptyContractAddress => {
                        &&& interval_seconds > 0
                        &&& rpc_endpoint@.len() > 0
                        &&& contract_address@.len() == 0
                    },
                    ConfigError::EmptyCallbackUrl => {
                        &&& interval_seconds > 0
                        &&& rpc_endpoint@.len() > 0
                        &&& contract_address@.len() > 0
                        &&& callback_url@.len() == 0
                    },
                    ConfigError::UnparsableCallbackUrl => false,
                },
            },
            r is Ok <==> (interval_seconds > 0 && rpc_endpoint@.len() > 0
                && contract_address@.len() > 0 && callback_url@.len() > 0),
    {
        if interval_seconds == 0 {
            Err(ConfigError::ZeroInterval)
        } else if rpc_endpoint.as_str().is_empty() {
            Err(ConfigError::EmptyRpcEndpoint)
        } else if contract_address.as_str().is_empty() {
            Err(ConfigError::EmptyContractAddress)
        } else if callback_url.as_str().is_empty() {
            Err(ConfigError::EmptyCallbackUrl)
        } else {
            Ok(HookConfig { rpc_endpoint, contract_address, callback_url, interval_seconds })
        }
    }
}

} // verus!
