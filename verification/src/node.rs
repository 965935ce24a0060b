//! What the node says of itself, and the options it is started with.
use vstd::prelude::*;
use rand::Rng;

use crate::rpc_types::{ChainType, RpcMethods, RuntimeVersion};

verus! {

/// The options of the node.
pub struct Args {
    /// Websocket host
    pub host: String,
    /// Websocket port
    pub port: u16,
    /// milliseconds per block (0 = instant)
    pub block_time: u64,
}

impl Default for Args {
    /// Host `0.0.0.0`, port 9944, a block every 6000 ms.
    fn default() -> (args: Self)
        ensures
            args.host@ == "0.0.0.0"@,
            args.port == 9944,
            args.block_time == 6000,
    {
        Args { host: String::from_str("0.0.0.0"), port: 9944, block_time: 6000 }
    }
}

impl Args {
    /// How long to wait after a block before the next one: nothing when
    /// blocks are instant.
    pub fn pause_after_block(&self) -> (pause: Option<u64>)
        ensures
            pause == (if self.block_time == 0 {
                None
            } else {
                Some(self.block_time)
            }),
    {
        if self.block_time == 0 {
            None
        } else {
            Some(self.block_time)
        }
    }
}

/// The node's implementation name.
pub fn system_name() -> (name: String)
    ensures
        name@ == "Runstrate"@,
{
    String::from_str("Runstrate")
}

/// The node's version.
pub fn system_version() -> (version: String)
    ensures
        version@ == "v0.0.2"@,
{
    String::from_str("v0.0.2")
}

/// The chain's name.
pub fn system_chain() -> (chain: String)
    ensures
        chain@ == "dev"@,
{
    String::from_str("dev")
}

/// The chain's type: a development chain.
pub fn system_type() -> (chain_type: ChainType)
    ensures
        chain_type is Development,
{
    ChainType::Development
}

/// Which RPC methods the node offers: the unsafe ones too.
pub fn methods() -> (methods: RpcMethods)
    ensures
        methods == RpcMethods::Unsafe,
{
    RpcMethods::Unsafe
}

/// That `v` is the runtime version reported with `version` as every version
/// number: named `runstrate-node`, with no runtime APIs and state version 1.
pub open spec fn reports_version(v: RuntimeVersion, version: u64) -> bool {
    &&& v.spec_name@ == "runstrate-node"@
    &&& v.impl_name@ == "runstrate-node"@
    &&& v.authoring_version == version
    &&& v.spec_version == version
    &&& v.impl_version == version
    &&& v.transaction_version == version
    &&& v.apis@.len() == 0
    &&& v.state_version == 1
}

/// The runtime version reported with `version` as every version number.
pub fn runtime_version_for(version: u64) -> (v: RuntimeVersion)
    ensures
        reports_version(v, version),
{
    RuntimeVersion {
        spec_name: String::from_str("runstrate-node"),
        impl_name: String::from_str("runstrate-node"),
        authoring_version: version,
        spec_version: version,
        impl_version: version,
        apis: Vec::new(),
        transaction_version: version,
        state_version: 1,
    }
}

/// `rand::thread_rng().gen_range(low..high)`: a number from `low` up to,
/// not including, `high`; which one is left to chance.
#[verifier::external_body]
fn random_in_range(low: u64, high: u64) -> (r: u64)
    requires
        low < high,
    ensures
        low <= r < high,
{
    rand::thread_rng().gen_range(low..high)
}

/// A runtime version with a random version number below 1000, so that a
/// fresh start of the node makes user interfaces refresh.
pub fn random_runtime_version() -> (v: RuntimeVersion)
    ensures
        v.authoring_version < 1000,
        reports_version(v, v.authoring_version),
{
    let r = random_in_range(0, 1000);
    runtime_version_for(r)
}

} // verus!
