//! What starting a node reads of its configuration.

use vstd::prelude::*;

verus! {

/// The part that a node takes in its network.
#[derive(Clone, Copy, Debug, PartialEq, Eq, Structural)]
pub enum Role {
    /// A full node, which follows the chain.
    Full,
    /// An authority, which also writes blocks.
    Authority,
}

impl Role {
    /// Whether a node of this role writes blocks.
    pub fn is_authority(&self) -> (authority: bool)
        ensures
            authority == (*self is Authority),
    {
        match self {
            Role::Full => false,
            Role::Authority => true,
        }
    }
}

/// A list of telemetry endpoints that is handed on as it is, and whether it is empty.
#[derive(Debug)]
pub struct TelemetryEndpoints<T> {
    pub endpoints: T,
    pub is_empty: bool,
}

/// How the executor of the runtime is set up.
#[derive(Debug, PartialEq, Eq)]
pub struct ExecutorParams<M> {
    pub wasm_method: M,
    pub default_heap_pages: Option<u64>,
    pub max_runtime_instances: usize,
    /// The directory in which compiled code is kept, if it is kept.
    pub cache_path: Option<String>,
    pub runtime_cache_size: u8,
}

/// The configuration of a node. `M` says how Wasm code is run, `T` is a list of endpoints.
#[derive(Debug)]
pub struct NodeConfig<M, T> {
    pub telemetry_endpoints: Option<TelemetryEndpoints<T>>,
    pub wasm_method: M,
    pub default_heap_pages: Option<u64>,
    pub max_runtime_instances: usize,
    pub runtime_cache_size: u8,
    pub role: Role,
    pub force_authoring: bool,
}

impl<M, T> NodeConfig<M, T> {
    /// Whether the node reports to anyone: some endpoints are given, and not an empty list.
    pub open spec fn reports(self) -> bool {
        self.telemetry_endpoints matches Some(given) && !given.is_empty
    }

    /// The endpoints that the node reports to.
    pub open spec fn endpoints(self) -> T
        recommends
            self.reports(),
    {
        self.telemetry_endpoints->0.endpoints
    }

    /// How the configuration sets up the executor. No compiled code is kept.
    pub open spec fn executor(self) -> ExecutorParams<M> {
        ExecutorParams {
            wasm_method: self.wasm_method,
            default_heap_pages: self.default_heap_pages,
            max_runtime_instances: self.max_runtime_instances,
            cache_path: None,
            runtime_cache_size: self.runtime_cache_size,
        }
    }

    /// The endpoints that the node reports to, if it reports at all.
    pub fn live_telemetry_endpoints(&self) -> (live: Option<&T>)
        ensures
            live == (if self.reports() {
                Some(&self.endpoints())
            } else {
                None
            }),
            live is Some <==> self.telemetry_endpoints is Some
                && !self.telemetry_endpoints->0.is_empty,
            live matches Some(endpoints) ==> *endpoints == self.telemetry_endpoints->0.endpoints,
    {
        match &self.telemetry_endpoints {
            Some(given) => if given.is_empty {
                None
            } else {
                Some(&given.endpoints)
            },
            None => None,
        }
    }
}

impl<M: Copy, T> NodeConfig<M, T> {
    /// Reads off how the executor is set up.
    pub fn executor_params(&self) -> (params: ExecutorParams<M>)
        ensures
            params == self.executor(),
            params.wasm_method == self.wasm_method,
            params.default_heap_pages == self.default_heap_pages,
            params.max_runtime_instances == self.max_runtime_instances,
            params.cache_path is None,
            params.runtime_cache_size == self.runtime_cache_size,
    {
        ExecutorParams {
            wasm_method: self.wasm_method,
            default_heap_pages: self.default_heap_pages,
            max_runtime_instances: self.max_runtime_instances,
            cache_path: None,
            runtime_cache_size: self.runtime_cache_size,
        }
    }
}

/// The executor is set up by the configuration: each setting is the one that the configuration
/// has under the same name, whatever it is, and no compiled code is kept.
pub proof fn law_executor_follows_configuration<M: Copy, T>(
    config: NodeConfig<M, T>,
    params: ExecutorParams<M>,
)
    requires
        params == config.executor() || call_ensures(
            NodeConfig::<M, T>::executor_params,
            (&config,),
            params,
        ),
    ensures
        params.wasm_method == config.wasm_method,
        params.default_heap_pages == config.default_heap_pages,
        params.max_runtime_instances == config.max_runtime_instances,
        params.runtime_cache_size == config.runtime_cache_size,
        params.cache_path is None,
        call_requires(NodeConfig::<M, T>::executor_params, (&config,)),
{
}

/// The endpoints that a node reports to are just those that it was given, where it was given any
/// and the list of them is not empty.
pub proof fn law_live_endpoints_are_those_given<M, T>(
    config: NodeConfig<M, T>,
    live: Option<&T>,
)
    requires
        call_ensures(NodeConfig::<M, T>::live_telemetry_endpoints, (&config,), live),
    ensures
        match config.telemetry_endpoints {
            Some(given) => if given.is_empty {
                live is None
            } else {
                live matches Some(endpoints) && *endpoints == given.endpoints
            },
            None => live is None,
        },
        call_requires(NodeConfig::<M, T>::live_telemetry_endpoints, (&config,)),
{
}

/// Just the authorities write blocks.
pub proof fn law_authorities_write(role: Role, authority: bool)
    requires
        call_ensures(Role::is_authority, (&role,), authority),
    ensures
        authority <==> role == Role::Authority,
        !authority <==> role == Role::Full,
{
}

/// Whether a node reports, and to whom, is settled by its telemetry endpoints alone: it reports to
/// the ones that are given, unless there are none or the list of them is empty.
pub proof fn law_reports_to_given_endpoints<M, T>(config: NodeConfig<M, T>)
    ensures
        config.telemetry_endpoints is None ==> !config.reports(),
        config.telemetry_endpoints matches Some(given) ==> {
            &&& config.reports() <==> !given.is_empty
            &&& config.endpoints() == given.endpoints
        },
{
}

/// The options of a collator. `U` is the address of a relay chain node.
#[derive(Debug)]
pub struct CollatorOptions<U> {
    /// The relay chain node to use in place of one that runs in this process.
    pub relay_chain_rpc_url: Option<U>,
}

} // verus!
