//! Startup configuration of the watcher.
//!
//! Loaded once, owned by the process for its lifetime. Addresses arrive as
//! text and are validated here: ill-formed text is a fatal load error,
//! found before any loop starts, never a runtime error mid-loop. The
//! reserve threshold is compared in display units by the caller of the
//! sweep engine and so lives with it, outside the library.

use vstd::prelude::*;

use crate::address::Address;
use crate::address::address_error;
use crate::address::decoded_bytes;
use crate::address::digits_of;
use crate::address::parse_address;
use crate::address::valid_address_text;
use crate::errors::LoadError;

verus! {

/// Immutable configuration of both polling engines.
#[derive(Debug)]
pub struct MonitorConfig {
    /// Endpoint of the chain's RPC node.
    pub rpc_endpoint: String,
    /// Credential the sender signs with; opaque here, the signer proper
    /// lives outside the library.
    pub sender_key: String,
    /// Account whose balance is swept.
    pub sender_address: Address,
    /// Fixed recipient of every sweep.
    pub recipient_address: Address,
    /// Address watched for the blacklist flag.
    pub watched_address: Address,
    /// Seconds between two ticks of either loop.
    pub poll_interval_secs: u64,
}

impl MonitorConfig {
    /// Well-formedness: every address holds its twenty bytes.
    pub open spec fn wf(&self) -> bool {
        &&& self.sender_address.wf()
        &&& self.recipient_address.wf()
        &&& self.watched_address.wf()
    }

    /// Builds the configuration, validating the three addresses given as
    /// text. They are checked in sender, recipient, watched order and the
    /// first fault wins; a valid load carries exactly the decoded bytes
    /// and the given strings, nothing reinterpreted.
    pub fn load(
        rpc_endpoint: String,
        sender_key: String,
        sender_text: &[u8],
        recipient_text: &[u8],
        watched_text: &[u8],
        poll_interval_secs: u64,
    ) -> (r: Result<MonitorConfig, LoadError>)
        ensures
            valid_address_text(sender_text@) && valid_address_text(recipient_text@)
                && valid_address_text(watched_text@) ==> {
                &&& r matches Ok(c)
                &&& c.wf()
                &&& c.rpc_endpoint@ == rpc_endpoint@
                &&& c.sender_key@ == sender_key@
                &&& c.sender_address@ == decoded_bytes(digits_of(sender_text@))
                &&& c.recipient_address@ == decoded_bytes(digits_of(recipient_text@))
                &&& c.watched_address@ == decoded_bytes(digits_of(watched_text@))
                &&& c.poll_interval_secs == poll_interval_secs
            },
            !valid_address_text(sender_text@) ==> r == Err::<MonitorConfig, LoadError>(
                address_error(sender_text@),
            ),
            valid_address_text(sender_text@) && !valid_address_text(recipient_text@) ==> r == Err::<
                MonitorConfig,
                LoadError,
            >(address_error(recipient_text@)),
            valid_address_text(sender_text@) && valid_address_text(recipient_text@)
                && !valid_address_text(watched_text@) ==> r == Err::<MonitorConfig, LoadError>(
                address_error(watched_text@),
            ),
    {
        let sender_address = match parse_address(sender_text) {
            Ok(a) => a,
            Err(e) => {
                return Err(e);
            },
        };
        let recipient_address = match parse_address(recipient_text) {
            Ok(a) => a,
            Err(e) => {
                return Err(e);
            },
        };
        let watched_address = match parse_address(watched_text) {
            Ok(a) => a,
            Err(e) => {
                return Err(e);
            },
        };
        Ok(
            MonitorConfig {
                rpc_endpoint,
                sender_key,
                sender_address,
                recipient_address,
                watched_address,
                poll_interval_secs,
            },
        )
    }
}

} // verus!
