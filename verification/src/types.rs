//! The types of the parts that a node is made of.

use vstd::prelude::*;

verus! {

/// The types of what a node is given and made of. Values of them are only carried along: what
/// was made is kept, and handed out where it is needed.
pub trait NodeTypes {
    /// How Wasm code is run.
    type WasmMethod: Copy;

    /// A list of telemetry endpoints.
    type Endpoints;

    /// The address of a relay chain node.
    type Url;

    /// The whole configuration of a node.
    type Configuration;

    /// What a test of the hardware came to.
    type HwBench;

    /// What builds the RPC extensions.
    type RpcExtBuilder;

    /// What metrics are registered with.
    type Registry;

    type TelemetryWorker;

    type Telemetry;

    type TelemetryWorkerHandle;

    /// The client. Copies of it share one client.
    type Client;

    type Backend;

    type Keystore;

    type TaskManager;

    type TransactionPool;

    type ImportQueue;

    /// An import queue of which there can be copies.
    type SharedImportQueue;

    /// What gets at the relay chain.
    type RelayChain;

    type CollatorKey;

    type Network;

    /// The channels through which the tasks of a node reach its network.
    type NetworkChannels;

    /// What lets the network run.
    type NetworkStarter;

    type Consensus;

    /// An error of the node service.
    type Error;
}

} // verus!
