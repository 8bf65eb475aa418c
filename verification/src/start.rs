//! Starting a node.

use crate::config::{CollatorOptions, NodeConfig};
use crate::error::{NodeError, PolkadotError, RelayChainError};
use crate::partial::{
    lent, new_partial, partial_plan, NewPartial, PartialAction, PartialComponents, PartialMade,
    PartialStep, PartialView,
};
use crate::types::NodeTypes;
use vstd::prelude::*;

verus! {

/// How long a slot of the relay chain is, in seconds.
pub const RELAY_CHAIN_SLOT_DURATION_SECS: u64 = 6;

/// A step in starting a node.
#[derive(Clone, Copy, Debug, PartialEq, Eq, Structural)]
pub enum Step {
    Partial(PartialStep),
    ConnectRelayChain,
    RunRelayChain,
    BuildNetwork,
    SpawnTasks,
    BuildConsensus,
    StartCollator,
    StartFullNode,
    StartNetwork,
}

/// What is to be done in a step, with what it takes.
///
/// Whatever is not lent is handed over for good, but for the task manager and the telemetry, which
/// come back with the event.
#[allow(inconsistent_fields)]
pub enum Action<'a, N: NodeTypes> {
    /// Make a component that every command needs.
    Partial(PartialAction<'a, N>),
    /// Connect to a relay chain node, and start the worker of the connection.
    ConnectRelayChain { url: &'a N::Url, task_manager: N::TaskManager },
    /// Run a relay chain node in this process, with a handle of the telemetry worker where
    /// there is one.
    RunRelayChain {
        polkadot_config: N::Configuration,
        parachain_config: &'a N::Configuration,
        telemetry_worker_handle: Option<N::TelemetryWorkerHandle>,
        task_manager: N::TaskManager,
        hwbench: Option<N::HwBench>,
    },
    /// Build the network, with a validator of the block announcements for the parachain, and
    /// with warp sync or without it.
    BuildNetwork {
        para_id: u32,
        warp_sync: bool,
        parachain_config: &'a N::Configuration,
        client: &'a N::Client,
        transaction_pool: &'a N::TransactionPool,
        task_manager: &'a N::TaskManager,
        import_queue: N::ImportQueue,
        relay_chain: &'a N::RelayChain,
    },
    /// Spawn the tasks of the node, the RPC server among them, with the telemetry where there is
    /// one.
    SpawnTasks {
        rpc_ext_builder: N::RpcExtBuilder,
        client: &'a N::Client,
        transaction_pool: &'a N::TransactionPool,
        task_manager: N::TaskManager,
        parachain_config: N::Configuration,
        keystore: &'a N::Keystore,
        backend: &'a N::Backend,
        network: &'a N::Network,
        network_channels: N::NetworkChannels,
        telemetry: Option<N::Telemetry>,
    },
    /// Build the consensus of the parachain, with the handle of the telemetry where there is
    /// one.
    BuildConsensus {
        para_id: u32,
        client: &'a N::Client,
        prometheus_registry: Option<&'a N::Registry>,
        telemetry: Option<&'a N::Telemetry>,
        task_manager: &'a N::TaskManager,
        relay_chain: &'a N::RelayChain,
        transaction_pool: &'a N::TransactionPool,
        network: &'a N::Network,
        keystore: &'a N::Keystore,
        force_authoring: bool,
    },
    /// Start the collator.
    StartCollator {
        para_id: u32,
        client: &'a N::Client,
        network: &'a N::Network,
        task_manager: N::TaskManager,
        relay_chain: N::RelayChain,
        consensus: N::Consensus,
        import_queue: N::SharedImportQueue,
        collator_key: N::CollatorKey,
        relay_chain_slot_duration_secs: u64,
    },
    /// Start the full node.
    StartFullNode {
        para_id: u32,
        client: &'a N::Client,
        network: &'a N::Network,
        task_manager: N::TaskManager,
        relay_chain: N::RelayChain,
        import_queue: N::SharedImportQueue,
        collator_options: &'a CollatorOptions<N::Url>,
        relay_chain_slot_duration_secs: u64,
    },
    /// Let the network run.
    StartNetwork { network_starter: N::NetworkStarter },
}

/// What getting at the relay chain has made. A relay chain node that runs in this process may
/// have made a key for the collator.
pub struct RelayChainMade<N: NodeTypes> {
    pub relay_chain: N::RelayChain,
    pub collator_key: Option<N::CollatorKey>,
    pub task_manager: N::TaskManager,
}

/// How an action went, with what it made and what it gives back.
pub enum Event<N: NodeTypes> {
    /// A component has been made.
    Partial(PartialMade<N>),
    /// What getting at the relay chain, in either way, came to.
    RelayChain(Result<RelayChainMade<N>, RelayChainError<N::Error>>),
    /// The network has been built, with copies of the import queue.
    Network {
        network: N::Network,
        network_channels: N::NetworkChannels,
        network_starter: N::NetworkStarter,
        import_queue: N::SharedImportQueue,
    },
    /// The tasks have been spawned.
    Tasks { task_manager: N::TaskManager, telemetry: Option<N::Telemetry> },
    /// The consensus has been built.
    Consensus(N::Consensus),
    /// The collator has been started.
    Collator { task_manager: N::TaskManager },
    /// The full node has been started.
    FullNode { task_manager: N::TaskManager },
    /// The network runs.
    NetworkStarted,
    /// The action has failed.
    Failed(N::Error),
}

/// What a node has been given and what has been made for it, as far as it has not been used up.
pub struct StartParts<N: NodeTypes> {
    pub parachain_config: Option<N::Configuration>,
    pub polkadot_config: Option<N::Configuration>,
    pub hwbench: Option<N::HwBench>,
    pub rpc_ext_builder: Option<N::RpcExtBuilder>,
    pub prometheus_registry: Option<N::Registry>,
    pub telemetry: Option<N::Telemetry>,
    pub telemetry_worker_handle: Option<N::TelemetryWorkerHandle>,
    pub client: Option<N::Client>,
    pub backend: Option<N::Backend>,
    pub keystore: Option<N::Keystore>,
    pub task_manager: Option<N::TaskManager>,
    pub transaction_pool: Option<N::TransactionPool>,
    pub import_queue: Option<N::ImportQueue>,
    pub shared_import_queue: Option<N::SharedImportQueue>,
    pub relay_chain: Option<N::RelayChain>,
    pub collator_key: Option<N::CollatorKey>,
    pub network: Option<N::Network>,
    pub network_channels: Option<N::NetworkChannels>,
    pub network_starter: Option<N::NetworkStarter>,
    pub consensus: Option<N::Consensus>,
}

impl<N: NodeTypes> StartParts<N> {
    /// What there is before anything has been made, besides the configuration that the components
    /// are made for.
    pub open spec fn given(
        polkadot_config: N::Configuration,
        hwbench: Option<N::HwBench>,
        rpc_ext_builder: N::RpcExtBuilder,
        prometheus_registry: Option<N::Registry>,
    ) -> Self {
        StartParts {
            parachain_config: None,
            polkadot_config: Some(polkadot_config),
            hwbench,
            rpc_ext_builder: Some(rpc_ext_builder),
            prometheus_registry,
            telemetry: None,
            telemetry_worker_handle: None,
            client: None,
            backend: None,
            keystore: None,
            task_manager: None,
            transaction_pool: None,
            import_queue: None,
            shared_import_queue: None,
            relay_chain: None,
            collator_key: None,
            network: None,
            network_channels: None,
            network_starter: None,
            consensus: None,
        }
    }

    /// What there is with the components, and with the configuration that they were made for.
    pub open spec fn with_components(
        self,
        parachain_config: N::Configuration,
        components: PartialComponents<N>,
    ) -> Self {
        StartParts {
            parachain_config: Some(parachain_config),
            telemetry: components.other.0,
            telemetry_worker_handle: components.other.1,
            client: Some(components.client),
            backend: Some(components.backend),
            keystore: Some(components.keystore_container),
            task_manager: Some(components.task_manager),
            transaction_pool: Some(components.transaction_pool),
            import_queue: Some(components.import_queue),
            ..self
        }
    }

    /// What there is with what an action made and gave back. No relay chain node that is reached
    /// over a connection makes a key for the collator.
    pub open spec fn with(self, event: Event<N>, connected: bool) -> Self {
        match event {
            Event::RelayChain(Ok(made)) => StartParts {
                relay_chain: Some(made.relay_chain),
                collator_key: if connected {
                    None
                } else {
                    made.collator_key
                },
                task_manager: Some(made.task_manager),
                ..self
            },
            Event::Network { network, network_channels, network_starter, import_queue } => {
                StartParts {
                    network: Some(network),
                    network_channels: Some(network_channels),
                    network_starter: Some(network_starter),
                    shared_import_queue: Some(import_queue),
                    ..self
                }
            },
            Event::Tasks { task_manager, telemetry } => StartParts {
                task_manager: Some(task_manager),
                telemetry,
                ..self
            },
            Event::Consensus(consensus) => StartParts { consensus: Some(consensus), ..self },
            Event::Collator { task_manager } => StartParts {
                task_manager: Some(task_manager),
                ..self
            },
            Event::FullNode { task_manager } => StartParts {
                task_manager: Some(task_manager),
                ..self
            },
            _ => self,
        }
    }

    /// What there is once the action of a step has been handed out with what it takes for good.
    pub open spec fn without(self, step: Step) -> Self {
        match step {
            Step::Partial(_) => self,
            Step::ConnectRelayChain => StartParts { task_manager: None, ..self },
            Step::RunRelayChain => StartParts {
                polkadot_config: None,
                telemetry_worker_handle: None,
                task_manager: None,
                hwbench: None,
                ..self
            },
            Step::BuildNetwork => StartParts { import_queue: None, ..self },
            Step::SpawnTasks => StartParts {
                rpc_ext_builder: None,
                task_manager: None,
                parachain_config: None,
                network_channels: None,
                telemetry: None,
                ..self
            },
            Step::BuildConsensus => self,
            Step::StartCollator => StartParts {
                task_manager: None,
                relay_chain: None,
                consensus: None,
                shared_import_queue: None,
                collator_key: None,
                ..self
            },
            Step::StartFullNode => StartParts {
                task_manager: None,
                relay_chain: None,
                shared_import_queue: None,
                ..self
            },
            Step::StartNetwork => StartParts { network_starter: None, ..self },
        }
    }
}

/// Every step that starts a node, in order.
///
/// The node gets at the relay chain over the connection that it has been given, and else by a
/// relay chain node of its own. On top of its network an authority collates; any other node just
/// follows.
pub open spec fn start_plan<M, T, U>(config: NodeConfig<M, T>, options: CollatorOptions<U>) -> Seq<
    Step,
> {
    partial_plan(config).map_values(|step: PartialStep| Step::Partial(step)) + seq![
        if options.relay_chain_rpc_url is Some {
            Step::ConnectRelayChain
        } else {
            Step::RunRelayChain
        },
        Step::BuildNetwork,
        Step::SpawnTasks,
    ] + (if config.role is Authority {
        seq![Step::BuildConsensus, Step::StartCollator]
    } else {
        seq![Step::StartFullNode]
    }) + seq![Step::StartNetwork]
}

/// How far the start of a node has come.
pub struct StartView<N: NodeTypes> {
    pub config: NodeConfig<N::WasmMethod, N::Endpoints>,
    pub options: CollatorOptions<N::Url>,
    pub para_id: u32,
    /// How far the making of the components has come, while it goes on.
    pub partial: Option<PartialView<N>>,
    pub parts: StartParts<N>,
    /// How many steps of the plan have been completed.
    pub completed: nat,
    /// Whether the action of the next step has been handed out.
    pub handed_out: bool,
    /// Whether an action has failed.
    pub failed: bool,
}

impl<N: NodeTypes> StartView<N> {
    /// Nothing has been done yet, and all is as it was given.
    pub open spec fn begin(
        config: NodeConfig<N::WasmMethod, N::Endpoints>,
        parachain_config: N::Configuration,
        polkadot_config: N::Configuration,
        collator_options: CollatorOptions<N::Url>,
        id: u32,
        hwbench: Option<N::HwBench>,
        rpc_ext_builder: N::RpcExtBuilder,
        prometheus_registry: Option<N::Registry>,
    ) -> Self {
        StartView {
            config,
            options: collator_options,
            para_id: id,
            partial: Some(PartialView::begin(config, parachain_config)),
            parts: StartParts::given(
                polkadot_config,
                hwbench,
                rpc_ext_builder,
                prometheus_registry,
            ),
            completed: 0,
            handed_out: false,
            failed: false,
        }
    }

    /// Every step that starts the node, in order.
    pub open spec fn plan(self) -> Seq<Step> {
        start_plan(self.config, self.options)
    }

    /// Whether another step is to be done.
    pub open spec fn running(self) -> bool {
        !self.failed && self.completed < self.plan().len()
    }

    /// Whether all has been done.
    pub open spec fn started(self) -> bool {
        !self.failed && self.completed == self.plan().len()
    }

    /// The step to be done next.
    pub open spec fn step(self) -> Step
        recommends
            self.running(),
    {
        self.plan()[self.completed as int]
    }

    /// What is to be done next.
    pub open spec fn next<'a>(self) -> Action<'a, N>
        recommends
            self.running(),
    {
        let parts = self.parts;
        match self.step() {
            Step::Partial(_) => Action::Partial(self.partial->0.next()),
            Step::ConnectRelayChain => Action::ConnectRelayChain {
                url: &self.options.relay_chain_rpc_url->0,
                task_manager: parts.task_manager->0,
            },
            Step::RunRelayChain => Action::RunRelayChain {
                polkadot_config: parts.polkadot_config->0,
                parachain_config: &parts.parachain_config->0,
                telemetry_worker_handle: parts.telemetry_worker_handle,
                task_manager: parts.task_manager->0,
                hwbench: parts.hwbench,
            },
            Step::BuildNetwork => Action::BuildNetwork {
                para_id: self.para_id,
                warp_sync: false,
                parachain_config: &parts.parachain_config->0,
                client: &parts.client->0,
                transaction_pool: &parts.transaction_pool->0,
                task_manager: &parts.task_manager->0,
                import_queue: parts.import_queue->0,
                relay_chain: &parts.relay_chain->0,
            },
            Step::SpawnTasks => Action::SpawnTasks {
                rpc_ext_builder: parts.rpc_ext_builder->0,
                client: &parts.client->0,
                transaction_pool: &parts.transaction_pool->0,
                task_manager: parts.task_manager->0,
                parachain_config: parts.parachain_config->0,
                keystore: &parts.keystore->0,
                backend: &parts.backend->0,
                network: &parts.network->0,
                network_channels: parts.network_channels->0,
                telemetry: parts.telemetry,
            },
            Step::BuildConsensus => Action::BuildConsensus {
                para_id: self.para_id,
                client: &parts.client->0,
                prometheus_registry: lent(parts.prometheus_registry),
                telemetry: lent(parts.telemetry),
                task_manager: &parts.task_manager->0,
                relay_chain: &parts.relay_chain->0,
                transaction_pool: &parts.transaction_pool->0,
                network: &parts.network->0,
                keystore: &parts.keystore->0,
                force_authoring: self.config.force_authoring,
            },
            Step::StartCollator => Action::StartCollator {
                para_id: self.para_id,
                client: &parts.client->0,
                network: &parts.network->0,
                task_manager: parts.task_manager->0,
                relay_chain: parts.relay_chain->0,
                consensus: parts.consensus->0,
                import_queue: parts.shared_import_queue->0,
                collator_key: parts.collator_key->0,
                relay_chain_slot_duration_secs: RELAY_CHAIN_SLOT_DURATION_SECS,
            },
            Step::StartFullNode => Action::StartFullNode {
                para_id: self.para_id,
                client: &parts.client->0,
                network: &parts.network->0,
                task_manager: parts.task_manager->0,
                relay_chain: parts.relay_chain->0,
                import_queue: parts.shared_import_queue->0,
                collator_options: &self.options,
                relay_chain_slot_duration_secs: RELAY_CHAIN_SLOT_DURATION_SECS,
            },
            Step::StartNetwork => Action::StartNetwork {
                network_starter: parts.network_starter->0,
            },
        }
    }

    /// Whether everything is there that the next action takes.
    pub open spec fn lacks_nothing(self) -> bool
        recommends
            self.running(),
    {
        let parts = self.parts;
        match self.step() {
            Step::Partial(_) => self.partial matches Some(partial) && partial.lacks_nothing(),
            Step::ConnectRelayChain => parts.task_manager is Some,
            Step::RunRelayChain => {
                &&& parts.polkadot_config is Some && parts.parachain_config is Some
                &&& parts.telemetry_worker_handle is Some <==> self.config.reports()
                &&& parts.task_manager is Some
            },
            Step::BuildNetwork => {
                &&& parts.parachain_config is Some && parts.client is Some
                &&& parts.transaction_pool is Some && parts.task_manager is Some
                &&& parts.import_queue is Some && parts.relay_chain is Some
            },
            Step::SpawnTasks => {
                &&& parts.rpc_ext_builder is Some && parts.client is Some
                &&& parts.transaction_pool is Some && parts.task_manager is Some
                &&& parts.parachain_config is Some && parts.keystore is Some
                &&& parts.backend is Some && parts.network is Some
                &&& parts.network_channels is Some
                &&& parts.telemetry is Some <==> self.config.reports()
            },
            Step::BuildConsensus => {
                &&& parts.client is Some && parts.task_manager is Some
                &&& parts.relay_chain is Some && parts.transaction_pool is Some
                &&& parts.network is Some && parts.keystore is Some
                &&& parts.telemetry is Some <==> self.config.reports()
            },
            Step::StartCollator => {
                &&& parts.client is Some && parts.network is Some && parts.task_manager is Some
                &&& parts.relay_chain is Some && parts.consensus is Some
                &&& parts.shared_import_queue is Some && parts.collator_key is Some
            },
            Step::StartFullNode => {
                &&& parts.client is Some && parts.network is Some && parts.task_manager is Some
                &&& parts.relay_chain is Some && parts.shared_import_queue is Some
            },
            Step::StartNetwork => parts.network_starter is Some,
        }
    }

    /// The next action has been handed out.
    pub open spec fn handing_out(self) -> Self {
        StartView {
            partial: match self.partial {
                Some(partial) => Some(partial.handing_out()),
                None => None,
            },
            parts: self.parts.without(self.step()),
            handed_out: true,
            ..self
        }
    }

    /// Whether the action that has been handed out may go like this, where it does not fail. No
    /// collator can be started without a key. A telemetry that was handed out comes back.
    pub open spec fn fits(self, event: Event<N>) -> bool {
        match self.step() {
            Step::Partial(_) => event matches Event::Partial(made) && self.partial->0.fits(made),
            Step::ConnectRelayChain => event is RelayChain,
            Step::RunRelayChain => event is RelayChain,
            Step::BuildNetwork => event is Network,
            Step::SpawnTasks => {
                event is Tasks && (event->Tasks_telemetry is Some <==> self.config.reports())
            },
            Step::BuildConsensus => event is Consensus && self.parts.collator_key is Some,
            Step::StartCollator => event is Collator,
            Step::StartFullNode => event is FullNode,
            Step::StartNetwork => event is NetworkStarted,
        }
    }

    /// Whether the action that has been handed out may go like this. A failure to get at the relay
    /// chain has an event of its own.
    pub open spec fn admits(self, event: Event<N>) -> bool {
        &&& self.running()
        &&& self.handed_out
        &&& if event is Failed {
            !(self.step() is ConnectRelayChain) && !(self.step() is RunRelayChain)
        } else {
            self.fits(event)
        }
    }

    /// What comes of how the action that was handed out went: an error ends it all, and is the
    /// result; success leads to the action after it, or, behind the last, is the result.
    pub open spec fn after(self, event: Event<N>) -> (Self, Option<Result<(), NodeError<N::Error>>>) {
        match failure(event) {
            Some(error) => (
                StartView { handed_out: false, failed: true, ..self },
                Some(Err(error)),
            ),
            None => {
                let noted = StartView {
                    completed: self.completed + 1,
                    handed_out: false,
                    ..self
                };
                let further = match event {
                    Event::Partial(made) => {
                        let partial = self.partial->0.after(Ok(made)).0;
                        if partial.running() {
                            StartView { partial: Some(partial), ..noted }
                        } else {
                            StartView {
                                partial: None,
                                parts: self.parts.with_components(
                                    partial.parts.configuration->0,
                                    partial.components(),
                                ),
                                ..noted
                            }
                        }
                    },
                    _ => StartView {
                        parts: self.parts.with(
                            event,
                            self.options.relay_chain_rpc_url is Some,
                        ),
                        ..noted
                    },
                };
                (further, if further.running() { None } else { Some(Ok(())) })
            },
        }
    }

    /// The client, once it has been made.
    pub open spec fn client(self) -> Option<N::Client> {
        match self.partial {
            Some(partial) => partial.parts.client,
            None => self.parts.client,
        }
    }

    /// The configuration of the node, until it is handed out for good.
    pub open spec fn parachain_config(self) -> Option<N::Configuration> {
        match self.partial {
            Some(partial) => partial.parts.configuration,
            None => self.parts.parachain_config,
        }
    }

    /// The task manager, where it is not handed out.
    pub open spec fn task_manager(self) -> Option<N::TaskManager> {
        match self.partial {
            Some(partial) => partial.parts.task_manager,
            None => self.parts.task_manager,
        }
    }

    /// The telemetry, where there is one and it is not handed out.
    pub open spec fn telemetry(self) -> Option<N::Telemetry> {
        match self.partial {
            Some(partial) => partial.parts.telemetry,
            None => self.parts.telemetry,
        }
    }

    /// Whether the action of the step with an index has been completed.
    pub open spec fn done(self, index: int) -> bool {
        self.completed > index
    }

    /// Whether the action of the step with an index has been handed out.
    pub open spec fn taken(self, index: int) -> bool {
        self.completed > index || self.completed == index && self.handed_out
    }

    /// Every part is there from when it was given or made on, and until it is handed out for
    /// good.
    pub open spec fn has_parts(self) -> bool {
        let relay = partial_plan(self.config).len() as int;
        let authority = self.config.role is Authority;
        let parachain = relay + (if authority { 4int } else { 3int });
        let parts = self.parts;
        &&& self.completed <= self.plan().len()
        &&& self.partial is Some <==> self.completed < relay
        &&& self.partial matches Some(partial) ==> {
            &&& partial.config == self.config
            &&& partial.completed == self.completed
            &&& partial.handed_out == self.handed_out
            &&& partial.running()
            &&& partial.has_parts()
        }
        &&& parts.parachain_config is Some <==> self.done(relay - 1) && !self.taken(relay + 2)
        &&& parts.rpc_ext_builder is Some <==> !self.taken(relay + 2)
        &&& !self.taken(relay) ==> parts.polkadot_config is Some
        &&& parts.client is Some <==> self.done(relay - 1)
        &&& parts.backend is Some <==> self.done(relay - 1)
        &&& parts.keystore is Some <==> self.done(relay - 1)
        &&& parts.transaction_pool is Some <==> self.done(relay - 1)
        &&& parts.task_manager is Some <==> self.done(relay - 1) && !(self.handed_out && (
        self.completed == relay || self.completed == relay + 2 || self.completed == parachain))
        &&& parts.telemetry is Some <==> self.config.reports() && self.done(relay - 1) && !(
        self.handed_out && self.completed == relay + 2)
        &&& self.completed == relay && !self.handed_out ==> (parts.telemetry_worker_handle is Some
            <==> self.config.reports())
        &&& parts.import_queue is Some <==> self.done(relay - 1) && !self.taken(relay + 1)
        &&& parts.relay_chain is Some <==> self.done(relay) && !self.taken(parachain)
        &&& parts.shared_import_queue is Some <==> self.done(relay + 1) && !self.taken(parachain)
        &&& parts.network is Some <==> self.done(relay + 1)
        &&& parts.network_channels is Some <==> self.done(relay + 1) && !self.taken(relay + 2)
        &&& parts.network_starter is Some <==> self.done(relay + 1) && !self.taken(parachain + 1)
        &&& parts.consensus is Some <==> authority && self.done(relay + 3) && !self.taken(
            relay + 4,
        )
        &&& authority && self.done(relay + 3) && !self.taken(relay + 4)
            ==> parts.collator_key is Some
    }
}

/// The error that an event comes out as, if it is a failure.
pub open spec fn failure<N: NodeTypes>(event: Event<N>) -> Option<NodeError<N::Error>> {
    match event {
        Event::Failed(error) => Some(NodeError::Service(error)),
        Event::RelayChain(Err(error)) => Some(error.node_error()),
        _ => None,
    }
}

/// Which step of a plan has which index.
pub proof fn lemma_start_plan<M, T, U>(config: NodeConfig<M, T>, options: CollatorOptions<U>)
    ensures
        ({
            let plan = start_plan(config, options);
            let partial = partial_plan(config);
            let relay = partial.len() as int;
            let authority = config.role is Authority;
            &&& plan.len() == relay + (if authority { 6int } else { 5int })
            &&& forall|i: int| 0 <= i < relay ==> #[trigger] plan[i] == Step::Partial(partial[i])
            &&& plan[relay] == (if options.relay_chain_rpc_url is Some {
                Step::ConnectRelayChain
            } else {
                Step::RunRelayChain
            })
            &&& plan[relay + 1] == Step::BuildNetwork
            &&& plan[relay + 2] == Step::SpawnTasks
            &&& authority ==> plan[relay + 3] == Step::BuildConsensus
            &&& authority ==> plan[relay + 4] == Step::StartCollator
            &&& !authority ==> plan[relay + 3] == Step::StartFullNode
            &&& plan[plan.len() - 1] == Step::StartNetwork
        }),
{
}

enum Phase {
    Partial,
    RelayChain,
    Network,
    Tasks,
    Consensus,
    Collator,
    FullNode,
    NetworkStart,
    Started,
}

/// The start of a node.
///
/// The owner does what `action` says, with what it hands out, and reports to `resume` how it went
/// and what was made, until that returns the result. `into_started` has what a started node leaves
/// to its owner.
pub struct StartNode<N: NodeTypes> {
    partial: NewPartial<N>,
    parts: StartParts<N>,
    options: CollatorOptions<N::Url>,
    para_id: u32,
    phase: Phase,
    handed_out: bool,
    failed: bool,
}

impl<N: NodeTypes> View for StartNode<N> {
    type V = StartView<N>;

    closed spec fn view(&self) -> StartView<N> {
        let config = self.partial@.config;
        let components = partial_plan(config).len();
        let parachain: nat = if config.role is Authority { 5 } else { 4 };
        StartView {
            config,
            options: self.options,
            para_id: self.para_id,
            partial: match self.phase {
                Phase::Partial => Some(self.partial@),
                _ => None,
            },
            parts: self.parts,
            completed: match self.phase {
                Phase::Partial => self.partial@.completed,
                Phase::RelayChain => components,
                Phase::Network => components + 1,
                Phase::Tasks => components + 2,
                Phase::Consensus => components + 3,
                Phase::Collator => components + 4,
                Phase::FullNode => components + 3,
                Phase::NetworkStart => components + parachain,
                Phase::Started => components + parachain + 1,
            },
            handed_out: self.handed_out,
            failed: self.failed,
        }
    }
}

impl<N: NodeTypes> StartNode<N> {
    /// The phases fit the role of the node.
    pub closed spec fn phase_fits(self) -> bool {
        let role = self.partial@.config.role;
        &&& self.phase is Partial ==> self.partial.wf()
        &&& self.phase is Consensus || self.phase is Collator ==> role is Authority
        &&& self.phase is FullNode ==> role is Full
    }

    /// Until something fails, every part is there that has been given or made and not been used
    /// up.
    pub open spec fn wf(self) -> bool {
        !self@.failed ==> self.phase_fits() && self@.has_parts()
    }

    /// The key for the collator, which has to be there once the consensus has been built.
    pub fn collator_key(&self) -> (key: Option<&N::CollatorKey>)
        ensures
            key == lent(self@.parts.collator_key),
            key is Some <==> self@.parts.collator_key is Some,
            key matches Some(key) ==> Some(*key) == self@.parts.collator_key,
    {
        self.parts.collator_key.as_ref()
    }

    /// Hands out the action to be done next.
    pub fn action(&mut self) -> (action: Action<'_, N>)
        requires
            old(self).wf(),
            old(self)@.running(),
            !old(self)@.handed_out,
        ensures
            final(self).wf(),
            action == old(self)@.next(),
            final(self)@ == old(self)@.handing_out(),
            final(self)@.config == old(self)@.config,
            final(self)@.options == old(self)@.options,
            final(self)@.para_id == old(self)@.para_id,
            action matches Action::ConnectRelayChain { url, .. } ==> Some(*url)
                == old(self)@.options.relay_chain_rpc_url,
            action matches Action::BuildNetwork { para_id, warp_sync, .. } ==> para_id == old(
                self,
            )@.para_id && !warp_sync,
            action matches Action::BuildConsensus { para_id, force_authoring, .. } ==> para_id
                == old(self)@.para_id && force_authoring == old(self)@.config.force_authoring,
            action matches Action::StartCollator {
                para_id,
                relay_chain_slot_duration_secs,
                ..
            } ==> para_id == old(self)@.para_id && relay_chain_slot_duration_secs == 6,
            action matches Action::StartFullNode {
                para_id,
                collator_options,
                relay_chain_slot_duration_secs,
                ..
            } ==> para_id == old(self)@.para_id && *collator_options == old(self)@.options
                && relay_chain_slot_duration_secs == 6,
    {
        proof {
            lemma_start_plan(self@.config, self@.options);
        }
        self.handed_out = true;
        let para_id = self.para_id;
        match self.phase {
            Phase::Partial => Action::Partial(self.partial.action()),
            Phase::RelayChain => {
                let task_manager = self.parts.task_manager.take().unwrap();
                match &self.options.relay_chain_rpc_url {
                    Some(url) => Action::ConnectRelayChain { url, task_manager },
                    None => Action::RunRelayChain {
                        polkadot_config: self.parts.polkadot_config.take().unwrap(),
                        telemetry_worker_handle: self.parts.telemetry_worker_handle.take(),
                        task_manager,
                        hwbench: self.parts.hwbench.take(),
                        parachain_config: self.parts.parachain_config.as_ref().unwrap(),
                    },
                }
            },
            Phase::Network => Action::BuildNetwork {
                para_id,
                warp_sync: false,
                import_queue: self.parts.import_queue.take().unwrap(),
                parachain_config: self.parts.parachain_config.as_ref().unwrap(),
                client: self.parts.client.as_ref().unwrap(),
                transaction_pool: self.parts.transaction_pool.as_ref().unwrap(),
                task_manager: self.parts.task_manager.as_ref().unwrap(),
                relay_chain: self.parts.relay_chain.as_ref().unwrap(),
            },
            Phase::Tasks => Action::SpawnTasks {
                rpc_ext_builder: self.parts.rpc_ext_builder.take().unwrap(),
                task_manager: self.parts.task_manager.take().unwrap(),
                parachain_config: self.parts.parachain_config.take().unwrap(),
                network_channels: self.parts.network_channels.take().unwrap(),
                telemetry: self.parts.telemetry.take(),
                client: self.parts.client.as_ref().unwrap(),
                transaction_pool: self.parts.transaction_pool.as_ref().unwrap(),
                keystore: self.parts.keystore.as_ref().unwrap(),
                backend: self.parts.backend.as_ref().unwrap(),
                network: self.parts.network.as_ref().unwrap(),
            },
            Phase::Consensus => Action::BuildConsensus {
                para_id,
                client: self.parts.client.as_ref().unwrap(),
                prometheus_registry: self.parts.prometheus_registry.as_ref(),
                telemetry: self.parts.telemetry.as_ref(),
                task_manager: self.parts.task_manager.as_ref().unwrap(),
                relay_chain: self.parts.relay_chain.as_ref().unwrap(),
                transaction_pool: self.parts.transaction_pool.as_ref().unwrap(),
                network: self.parts.network.as_ref().unwrap(),
                keystore: self.parts.keystore.as_ref().unwrap(),
                force_authoring: self.partial.config().force_authoring,
            },
            Phase::Collator => Action::StartCollator {
                para_id,
                task_manager: self.parts.task_manager.take().unwrap(),
                relay_chain: self.parts.relay_chain.take().unwrap(),
                consensus: self.parts.consensus.take().unwrap(),
                import_queue: self.parts.shared_import_queue.take().unwrap(),
                collator_key: self.parts.collator_key.take().unwrap(),
                client: self.parts.client.as_ref().unwrap(),
                network: self.parts.network.as_ref().unwrap(),
                relay_chain_slot_duration_secs: RELAY_CHAIN_SLOT_DURATION_SECS,
            },
            Phase::FullNode => Action::StartFullNode {
                para_id,
                task_manager: self.parts.task_manager.take().unwrap(),
                relay_chain: self.parts.relay_chain.take().unwrap(),
                import_queue: self.parts.shared_import_queue.take().unwrap(),
                client: self.parts.client.as_ref().unwrap(),
                network: self.parts.network.as_ref().unwrap(),
                collator_options: &self.options,
                relay_chain_slot_duration_secs: RELAY_CHAIN_SLOT_DURATION_SECS,
            },
            Phase::NetworkStart | Phase::Started => Action::StartNetwork {
                network_starter: self.parts.network_starter.take().unwrap(),
            },
        }
    }

    /// Takes note of how the action went, and keeps what it made and gave back. Returns the result
    /// once there is one.
    pub fn resume(&mut self, event: Event<N>) -> (result: Option<Result<(), NodeError<N::Error>>>)
        requires
            old(self).wf(),
            old(self)@.admits(event),
        ensures
            final(self).wf(),
            (final(self)@, result) == old(self)@.after(event),
            final(self)@.config == old(self)@.config,
            final(self)@.options == old(self)@.options,
            final(self)@.para_id == old(self)@.para_id,
            event matches Event::Failed(error) ==> result == Some(
                Err::<(), NodeError<N::Error>>(NodeError::Service(error)),
            ),
            event matches Event::RelayChain(Err(error)) ==> result == Some(
                Err::<(), NodeError<N::Error>>(error.node_error()),
            ),
            !(event is Failed) && !(event matches Event::RelayChain(Err(_))) ==> {
                &&& final(self)@.completed == old(self)@.completed + 1
                &&& result is None || result == Some(Ok::<(), NodeError<N::Error>>(()))
            },
    {
        proof {
            lemma_start_plan(self@.config, self@.options);
        }
        self.handed_out = false;
        self.phase = match event {
            Event::Failed(error) => {
                self.failed = true;
                return Some(Err(NodeError::Service(error)));
            },
            Event::RelayChain(Err(error)) => {
                self.failed = true;
                return Some(Err(error.into_node_error()));
            },
            Event::Partial(made) => match self.partial.resume(Ok(made)) {
                None => Phase::Partial,
                Some(_) => {
                    let (parachain_config, components) = self.partial.take_components();
                    self.parts.parachain_config = Some(parachain_config);
                    self.parts.telemetry = components.other.0;
                    self.parts.telemetry_worker_handle = components.other.1;
                    self.parts.client = Some(components.client);
                    self.parts.backend = Some(components.backend);
                    self.parts.keystore = Some(components.keystore_container);
                    self.parts.task_manager = Some(components.task_manager);
                    self.parts.transaction_pool = Some(components.transaction_pool);
                    self.parts.import_queue = Some(components.import_queue);
                    Phase::RelayChain
                },
            },
            Event::RelayChain(Ok(made)) => {
                self.parts.relay_chain = Some(made.relay_chain);
                self.parts.collator_key = match self.options.relay_chain_rpc_url {
                    Some(_) => None,
                    None => made.collator_key,
                };
                self.parts.task_manager = Some(made.task_manager);
                Phase::Network
            },
            Event::Network { network, network_channels, network_starter, import_queue } => {
                self.parts.network = Some(network);
                self.parts.network_channels = Some(network_channels);
                self.parts.network_starter = Some(network_starter);
                self.parts.shared_import_queue = Some(import_queue);
                Phase::Tasks
            },
            Event::Tasks { task_manager, telemetry } => {
                self.parts.task_manager = Some(task_manager);
                self.parts.telemetry = telemetry;
                if self.partial.config().role.is_authority() {
                    Phase::Consensus
                } else {
                    Phase::FullNode
                }
            },
            Event::Consensus(consensus) => {
                self.parts.consensus = Some(consensus);
                Phase::Collator
            },
            Event::Collator { task_manager } => {
                self.parts.task_manager = Some(task_manager);
                Phase::NetworkStart
            },
            Event::FullNode { task_manager } => {
                self.parts.task_manager = Some(task_manager);
                Phase::NetworkStart
            },
            Event::NetworkStarted => Phase::Started,
        };
        match self.phase {
            Phase::Started => Some(Ok(())),
            _ => None,
        }
    }

    /// What a started node leaves to its owner: the task manager, as the last action gave it back,
    /// and the client.
    pub fn into_started(self) -> (started: (N::TaskManager, N::Client))
        requires
            self.wf(),
            self@.started(),
        ensures
            started.0 == self@.parts.task_manager->0,
            started.1 == self@.parts.client->0,
            Some(started.0) == self@.parts.task_manager,
            Some(started.1) == self@.parts.client,
    {
        (self.parts.task_manager.unwrap(), self.parts.client.unwrap())
    }
}

/// Begins to start a node of a parachain. `config` is what is read of `parachain_config`, and
/// `prometheus_registry` is the registry that it has.
#[allow(clippy::too_many_arguments)]
pub fn start_parachain_node<N: NodeTypes>(
    config: NodeConfig<N::WasmMethod, N::Endpoints>,
    parachain_config: N::Configuration,
    polkadot_config: N::Configuration,
    collator_options: CollatorOptions<N::Url>,
    id: u32,
    hwbench: Option<N::HwBench>,
    rpc_ext_builder: N::RpcExtBuilder,
    prometheus_registry: Option<N::Registry>,
) -> (node: StartNode<N>)
    ensures
        node.wf(),
        node@ == StartView::<N>::begin(
            config,
            parachain_config,
            polkadot_config,
            collator_options,
            id,
            hwbench,
            rpc_ext_builder,
            prometheus_registry,
        ),
        node@.running(),
        node@.config == config,
        node@.options == collator_options,
        node@.para_id == id,
        node@.partial is Some,
        node@.partial->0.config == config,
        node@.partial->0.parts.configuration == Some(parachain_config),
        node@.parts.polkadot_config == Some(polkadot_config),
        node@.parts.hwbench == hwbench,
        node@.parts.rpc_ext_builder == Some(rpc_ext_builder),
        node@.parts.prometheus_registry == prometheus_registry,
        node@.completed == 0,
        !node@.handed_out && !node@.failed,
{
    let parts = StartParts {
        parachain_config: None,
        polkadot_config: Some(polkadot_config),
        hwbench,
        rpc_ext_builder: Some(rpc_ext_builder),
        prometheus_registry,
        telemetry: None,
        telemetry_worker_handle: None,
        client: None,
        backend: None,
        keystore: None,
        task_manager: None,
        transaction_pool: None,
        import_queue: None,
        shared_import_queue: None,
        relay_chain: None,
        collator_key: None,
        network: None,
        network_channels: None,
        network_starter: None,
        consensus: None,
    };
    StartNode {
        partial: new_partial(config, parachain_config),
        parts,
        options: collator_options,
        para_id: id,
        phase: Phase::Partial,
        handed_out: false,
        failed: false,
    }
}

/// The steps that start a node behind the making of its components, in order, and what they depend
/// on: the relay chain is connected to where an address of a node of it was given, and else such a
/// node is run; the consensus is built and the collator started for an authority, and a full node
/// is started otherwise. They depend on nothing else.
pub proof fn law_steps_that_start_a_node<M, T, U>(
    config: NodeConfig<M, T>,
    options: CollatorOptions<U>,
)
    ensures
        ({
            let plan = start_plan(config, options);
            let made: int = if config.telemetry_endpoints is Some
                && !config.telemetry_endpoints->0.is_empty {
                5
            } else {
                3
            };
            &&& forall|i: int| 0 <= i < made ==> #[trigger] plan[i] is Partial
            &&& if options.relay_chain_rpc_url is Some {
                plan[made] is ConnectRelayChain
            } else {
                plan[made] is RunRelayChain
            }
            &&& plan[made + 1] is BuildNetwork
            &&& plan[made + 2] is SpawnTasks
            &&& if config.role is Authority {
                &&& plan.len() == made + 6
                &&& plan[made + 3] is BuildConsensus
                &&& plan[made + 4] is StartCollator
                &&& plan[made + 5] is StartNetwork
            } else {
                &&& plan.len() == made + 5
                &&& plan[made + 3] is StartFullNode
                &&& plan[made + 4] is StartNetwork
            }
        }),
{
    lemma_start_plan(config, options);
}

/// An event is a failure if and only if it says so: the error of the service is the error of the
/// node; an error in getting at the relay chain is the error of the service below the relay chain
/// node, where it is one, and else its description.
pub proof fn law_failures<N: NodeTypes>(event: Event<N>)
    ensures
        match event {
            Event::Failed(error) => failure(event) == Some(NodeError::Service(error)),
            Event::RelayChain(Err(RelayChainError::ServiceError { error, text })) => {
                match error {
                    PolkadotError::Sub(below) => failure(event) == Some(NodeError::Service(below)),
                    PolkadotError::Other => failure(event) == Some(
                        NodeError::<N::Error>::Other(text),
                    ),
                }
            },
            Event::RelayChain(Err(RelayChainError::Other { text })) => failure(event) == Some(
                NodeError::<N::Error>::Other(text),
            ),
            _ => failure(event) is None,
        },
{
}

/// Whatever comes of an action that was handed out can be reported: any error, for which getting
/// at the relay chain has an event of its own, and anything of the kind that the action makes. The
/// consensus of an authority that has no key for a collator is the one exception.
pub proof fn law_any_event_can_be_reported<N: NodeTypes>(view: StartView<N>, event: Event<N>)
    requires
        !view.failed,
        view.handed_out,
        view.completed < view.plan().len(),
    ensures
        view.admits(event) <==> {
            let step = view.plan()[view.completed as int];
            match event {
                Event::Partial(made) => step is Partial && view.partial->0.fits(made),
                Event::RelayChain(_) => step is ConnectRelayChain || step is RunRelayChain,
                Event::Network { .. } => step is BuildNetwork,
                Event::Tasks { telemetry, .. } => {
                    &&& step is SpawnTasks
                    &&& telemetry is Some <==> view.config.telemetry_endpoints is Some
                        && !view.config.telemetry_endpoints->0.is_empty
                },
                Event::Consensus(_) => step is BuildConsensus && view.parts.collator_key is Some,
                Event::Collator { .. } => step is StartCollator,
                Event::FullNode { .. } => step is StartFullNode,
                Event::NetworkStarted => step is StartNetwork,
                Event::Failed(_) => !(step is ConnectRelayChain) && !(step is RunRelayChain),
            }
        },
{
}

/// A start begins with all that it was given, just as it was given, and with nothing done; and it
/// may begin with anything.
pub proof fn law_start_begins_as_given<N: NodeTypes>(
    config: NodeConfig<N::WasmMethod, N::Endpoints>,
    parachain_config: N::Configuration,
    polkadot_config: N::Configuration,
    collator_options: CollatorOptions<N::Url>,
    id: u32,
    hwbench: Option<N::HwBench>,
    rpc_ext_builder: N::RpcExtBuilder,
    prometheus_registry: Option<N::Registry>,
    node: StartNode<N>,
)
    requires
        call_ensures(
            start_parachain_node::<N>,
            (
                config,
                parachain_config,
                polkadot_config,
                collator_options,
                id,
                hwbench,
                rpc_ext_builder,
                prometheus_registry,
            ),
            node,
        ),
    ensures
        node@.config == config,
        node@.options == collator_options,
        node@.para_id == id,
        node@.partial is Some,
        node@.partial->0.config == config,
        node@.partial->0.parts.configuration == Some(parachain_config),
        node@.parts.polkadot_config == Some(polkadot_config),
        node@.parts.hwbench == hwbench,
        node@.parts.rpc_ext_builder == Some(rpc_ext_builder),
        node@.parts.prometheus_registry == prometheus_registry,
        node@.completed == 0,
        !node@.handed_out && !node@.failed,
        call_requires(
            start_parachain_node::<N>,
            (
                config,
                parachain_config,
                polkadot_config,
                collator_options,
                id,
                hwbench,
                rpc_ext_builder,
                prometheus_registry,
            ),
        ),
{
}

/// What a started node leaves is the task manager and the client that it has.
pub proof fn law_started_node_leaves_its_parts<N: NodeTypes>(
    node: StartNode<N>,
    started: (N::TaskManager, N::Client),
)
    requires
        node.wf(),
        node@.started(),
        call_ensures(StartNode::<N>::into_started, (node,), started),
    ensures
        Some(started.0) == node@.parts.task_manager,
        Some(started.1) == node@.parts.client,
{
}

} // verus!
