use service_aura::config::{CollatorOptions, ExecutorParams, NodeConfig, Role, TelemetryEndpoints};
use service_aura::error::{NodeError, PolkadotError, RelayChainError};
use service_aura::partial::{
    new_partial, NewPartial, PartialAction, PartialComponents, PartialMade, Spawner,
};
use service_aura::start::{start_parachain_node, Action, Event, RelayChainMade, StartNode};
use service_aura::types::NodeTypes;
use std::sync::Arc;

/// A node made of toys. Its task manager takes down who had it, its telemetry how often it was
/// had.
#[derive(Debug, PartialEq)]
struct Toy;

impl NodeTypes for Toy {
    type WasmMethod = char;
    type Endpoints = &'static str;
    type Url = &'static str;
    type Configuration = &'static str;
    type HwBench = u16;
    type RpcExtBuilder = &'static str;
    type Registry = &'static str;
    type TelemetryWorker = &'static str;
    type Telemetry = u32;
    type TelemetryWorkerHandle = &'static str;
    type Client = Arc<u64>;
    type Backend = &'static str;
    type Keystore = &'static str;
    type TaskManager = Vec<&'static str>;
    type TransactionPool = Arc<&'static str>;
    type ImportQueue = &'static str;
    type SharedImportQueue = Arc<&'static str>;
    type RelayChain = &'static str;
    type CollatorKey = u64;
    type Network = &'static str;
    type NetworkChannels = (u8, u8);
    type NetworkStarter = &'static str;
    type Consensus = &'static str;
    type Error = u8;
}

type Config = NodeConfig<char, &'static str>;
type Node = StartNode<Toy>;

const ENDPOINTS: &str = "wss://telemetry.example/submit";

fn config(role: Role, telemetry: Option<bool>) -> Config {
    NodeConfig {
        telemetry_endpoints: telemetry
            .map(|is_empty| TelemetryEndpoints { endpoints: ENDPOINTS, is_empty }),
        wasm_method: 'c',
        default_heap_pages: Some(64),
        max_runtime_instances: 8,
        runtime_cache_size: 2,
        role,
        force_authoring: true,
    }
}

fn executor() -> ExecutorParams<char> {
    ExecutorParams {
        wasm_method: 'c',
        default_heap_pages: Some(64),
        max_runtime_instances: 8,
        cache_path: None,
        runtime_cache_size: 2,
    }
}

fn node(config: Config, url: Option<&'static str>, id: u32) -> Node {
    start_parachain_node(
        config,
        "parachain config",
        "polkadot config",
        CollatorOptions { relay_chain_rpc_url: url },
        id,
        Some(77),
        "rpc builder",
        Some("registry"),
    )
}

/// What is to be expected of a node.
struct Expected {
    authority: bool,
    reports: bool,
    id: u32,
    client: Arc<u64>,
    key: Option<u64>,
}

impl Expected {
    fn of(config: &Config, id: u32, key: Option<u64>) -> Self {
        Expected {
            authority: config.role.is_authority(),
            reports: config.live_telemetry_endpoints().is_some(),
            id,
            client: Arc::new(31),
            key,
        }
    }

    /// Makes a component, and checks what it is made from.
    fn make(&self, action: PartialAction<'_, Toy>) -> (&'static str, PartialMade<Toy>) {
        match action {
            PartialAction::CreateTelemetry { buffer_size, endpoints } => {
                assert!(self.reports);
                assert_eq!(buffer_size, 16);
                assert_eq!(*endpoints, ENDPOINTS);
                let made = PartialMade::Telemetry { telemetry_worker: "worker", telemetry: 1 };
                ("telemetry", made)
            }
            PartialAction::NewFullParts { configuration, executor: given, telemetry } => {
                assert_eq!(*configuration, "parachain config");
                assert_eq!(given, executor());
                assert_eq!(telemetry.copied(), self.reports.then_some(1));
                let made = PartialMade::FullParts {
                    client: self.client.clone(),
                    backend: "backend",
                    keystore: "keystore",
                    task_manager: vec!["full parts"],
                };
                ("full parts", made)
            }
            PartialAction::SpawnTelemetryWorker {
                spawner,
                name,
                group,
                telemetry_worker,
                task_manager,
            } => {
                assert!(self.reports);
                assert_eq!(spawner, Spawner::Ordinary);
                assert_eq!((name, group), ("telemetry", None));
                assert_eq!(telemetry_worker, "worker");
                assert_eq!(*task_manager, vec!["full parts"]);
                ("worker", PartialMade::TelemetryWorkerHandle("handle of worker"))
            }
            PartialAction::NewTransactionPool {
                configuration,
                is_validator,
                spawner,
                client,
                task_manager,
            } => {
                assert_eq!(*configuration, "parachain config");
                assert_eq!(is_validator, self.authority);
                assert_eq!(spawner, Spawner::Essential);
                assert!(Arc::ptr_eq(client, &self.client));
                assert_eq!(*task_manager, vec!["full parts"]);
                ("pool", PartialMade::TransactionPool(Arc::new("pool")))
            }
            PartialAction::BuildImportQueue { client, configuration, telemetry, task_manager } => {
                assert_eq!(*configuration, "parachain config");
                assert!(Arc::ptr_eq(client, &self.client));
                assert_eq!(telemetry.copied(), self.reports.then_some(1));
                assert_eq!(*task_manager, vec!["full parts"]);
                ("queue", PartialMade::ImportQueue("queue"))
            }
        }
    }

    /// Does what is to be done so that it goes well, and checks what is handed out for it.
    fn perform(&self, action: Action<'_, Toy>) -> (&'static str, Event<Toy>) {
        match action {
            Action::Partial(action) => {
                let (name, made) = self.make(action);
                (name, Event::Partial(made))
            }
            Action::ConnectRelayChain { url, mut task_manager } => {
                assert_eq!(*url, "ws://relay.example");
                assert_eq!(task_manager, vec!["full parts"]);
                task_manager.push("relay chain");
                let made = RelayChainMade {
                    relay_chain: "relay chain",
                    collator_key: self.key,
                    task_manager,
                };
                ("connect", Event::RelayChain(Ok(made)))
            }
            Action::RunRelayChain {
                polkadot_config,
                parachain_config,
                telemetry_worker_handle,
                mut task_manager,
                hwbench,
            } => {
                assert_eq!(polkadot_config, "polkadot config");
                assert_eq!(*parachain_config, "parachain config");
                assert_eq!(telemetry_worker_handle, self.reports.then_some("handle of worker"));
                assert_eq!(task_manager, vec!["full parts"]);
                assert_eq!(hwbench, Some(77));
                task_manager.push("relay chain");
                let made = RelayChainMade {
                    relay_chain: "relay chain",
                    collator_key: self.key,
                    task_manager,
                };
                ("run", Event::RelayChain(Ok(made)))
            }
            Action::BuildNetwork {
                para_id,
                warp_sync,
                parachain_config,
                client,
                transaction_pool,
                task_manager,
                import_queue,
                relay_chain,
            } => {
                assert_eq!((para_id, warp_sync), (self.id, false));
                assert_eq!(*parachain_config, "parachain config");
                assert!(Arc::ptr_eq(client, &self.client));
                assert_eq!(**transaction_pool, "pool");
                assert_eq!(*task_manager, vec!["full parts", "relay chain"]);
                assert_eq!(*relay_chain, "relay chain");
                let event = Event::Network {
                    network: "network",
                    network_channels: (3, 4),
                    network_starter: "starter",
                    import_queue: Arc::new(import_queue),
                };
                ("network", event)
            }
            Action::SpawnTasks {
                rpc_ext_builder,
                client,
                transaction_pool,
                mut task_manager,
                parachain_config,
                keystore,
                backend,
                network,
                network_channels,
                telemetry,
            } => {
                assert_eq!(rpc_ext_builder, "rpc builder");
                assert!(Arc::ptr_eq(client, &self.client));
                assert_eq!(**transaction_pool, "pool");
                assert_eq!(parachain_config, "parachain config");
                assert_eq!((*keystore, *backend, *network), ("keystore", "backend", "network"));
                assert_eq!(network_channels, (3, 4));
                assert_eq!(telemetry, self.reports.then_some(1));
                task_manager.push("tasks");
                let telemetry = telemetry.map(|had| had + 1);
                ("tasks", Event::Tasks { task_manager, telemetry })
            }
            Action::BuildConsensus {
                para_id,
                client,
                prometheus_registry,
                telemetry,
                task_manager,
                relay_chain,
                transaction_pool,
                network,
                keystore,
                force_authoring,
            } => {
                assert!(self.authority && force_authoring);
                assert_eq!(para_id, self.id);
                assert!(Arc::ptr_eq(client, &self.client));
                assert_eq!(prometheus_registry, Some(&"registry"));
                assert_eq!(telemetry.copied(), self.reports.then_some(2));
                assert_eq!(*task_manager, vec!["full parts", "relay chain", "tasks"]);
                assert_eq!(**transaction_pool, "pool");
                assert_eq!(
                    (*relay_chain, *network, *keystore),
                    ("relay chain", "network", "keystore")
                );
                ("consensus", Event::Consensus("consensus"))
            }
            Action::StartCollator {
                para_id,
                client,
                network,
                mut task_manager,
                relay_chain,
                consensus,
                import_queue,
                collator_key,
                relay_chain_slot_duration_secs,
            } => {
                assert!(self.authority);
                assert_eq!((para_id, relay_chain_slot_duration_secs), (self.id, 6));
                assert!(Arc::ptr_eq(client, &self.client));
                assert_eq!((*network, relay_chain), ("network", "relay chain"));
                assert_eq!((consensus, *import_queue), ("consensus", "queue"));
                assert_eq!(Some(collator_key), self.key);
                task_manager.push("collator");
                ("collator", Event::Collator { task_manager })
            }
            Action::StartFullNode {
                para_id,
                client,
                network,
                mut task_manager,
                relay_chain,
                import_queue,
                collator_options,
                relay_chain_slot_duration_secs,
            } => {
                assert!(!self.authority);
                assert_eq!((para_id, relay_chain_slot_duration_secs), (self.id, 6));
                assert!(Arc::ptr_eq(client, &self.client));
                assert_eq!((*network, relay_chain), ("network", "relay chain"));
                assert_eq!(*import_queue, "queue");
                assert!(matches!(
                    collator_options.relay_chain_rpc_url,
                    None | Some("ws://relay.example")
                ));
                task_manager.push("full node");
                ("full node", Event::FullNode { task_manager })
            }
            Action::StartNetwork { network_starter } => {
                assert_eq!(network_starter, "starter");
                ("start network", Event::NetworkStarted)
            }
        }
    }
}

/// Starts a node in which all goes well. Returns what was done, and what the node leaves.
fn start(mut node: Node, expected: &Expected) -> (Vec<&'static str>, Vec<&'static str>) {
    let mut done = Vec::new();
    loop {
        let (name, event) = expected.perform(node.action());
        done.push(name);
        match node.resume(event) {
            None => {}
            Some(result) => {
                assert_eq!(result, Ok(()));
                let (task_manager, client) = node.into_started();
                assert!(Arc::ptr_eq(&client, &expected.client));
                return (done, task_manager);
            }
        }
    }
}

/// Makes components where all goes well. Returns what was done, and the components.
fn make(
    mut partial: NewPartial<Toy>,
    expected: &Expected,
) -> (Vec<&'static str>, PartialComponents<Toy>) {
    let mut done = Vec::new();
    loop {
        let (name, made) = expected.make(partial.action());
        done.push(name);
        match partial.resume(Ok(made)) {
            None => {}
            Some(result) => {
                assert_eq!(result, Ok(()));
                return (done, partial.into_components());
            }
        }
    }
}

fn components(
    client: &Arc<u64>,
    telemetry: Option<u32>,
    handle: Option<&'static str>,
) -> PartialComponents<Toy> {
    PartialComponents {
        client: client.clone(),
        backend: "backend",
        task_manager: vec!["full parts"],
        keystore_container: "keystore",
        import_queue: "queue",
        transaction_pool: Arc::new("pool"),
        select_chain: (),
        other: (telemetry, handle),
    }
}

#[test]
fn partial_with_telemetry() {
    let config = config(Role::Authority, Some(false));
    let expected = Expected::of(&config, 0, None);
    let (done, made) = make(new_partial(config, "parachain config"), &expected);
    assert_eq!(done, vec!["telemetry", "full parts", "worker", "pool", "queue"]);
    assert!(Arc::ptr_eq(&made.client, &expected.client));
    assert_eq!(made, components(&expected.client, Some(1), Some("handle of worker")));
}

#[test]
fn partial_without_telemetry() {
    for telemetry in [None, Some(true)] {
        let config = config(Role::Full, telemetry);
        let expected = Expected::of(&config, 0, None);
        let (done, made) = make(new_partial(config, "parachain config"), &expected);
        assert_eq!(done, vec!["full parts", "pool", "queue"]);
        assert_eq!(made, components(&expected.client, None, None));
    }
}

#[test]
fn partial_actions() {
    let mut partial: NewPartial<Toy> = new_partial(config(Role::Full, None), "own");
    assert_eq!(
        partial.action(),
        PartialAction::NewFullParts {
            configuration: &"own",
            executor: executor(),
            telemetry: None,
        }
    );
    let client = Arc::new(9);
    let made = PartialMade::FullParts {
        client: client.clone(),
        backend: "backend",
        keystore: "keystore",
        task_manager: Vec::new(),
    };
    assert_eq!(partial.resume(Ok(made)), None);
    assert_eq!(
        partial.action(),
        PartialAction::NewTransactionPool {
            configuration: &"own",
            is_validator: false,
            spawner: Spawner::Essential,
            client: &client,
            task_manager: &Vec::new(),
        }
    );
}

#[test]
fn partial_fails_with_the_first_error() {
    for failing in 0..5 {
        let config = config(Role::Full, Some(false));
        let expected = Expected::of(&config, 0, None);
        let mut partial = new_partial(config, "parachain config");
        for _ in 0..failing {
            let (_, made) = expected.make(partial.action());
            assert_eq!(partial.resume(Ok(made)), None);
        }
        partial.action();
        assert_eq!(partial.resume(Err(7)), Some(Err(7)));
    }
}

#[test]
fn authority_with_its_own_relay_chain_node() {
    let config = config(Role::Authority, Some(false));
    let expected = Expected::of(&config, 2000, Some(42));
    let (done, task_manager) = start(node(config, None, 2000), &expected);
    assert_eq!(
        done,
        vec![
            "telemetry",
            "full parts",
            "worker",
            "pool",
            "queue",
            "run",
            "network",
            "tasks",
            "consensus",
            "collator",
            "start network",
        ]
    );
    assert_eq!(task_manager, vec!["full parts", "relay chain", "tasks", "collator"]);
}

#[test]
fn full_node_over_a_connection() {
    let config = config(Role::Full, None);
    let expected = Expected::of(&config, 7, None);
    let (done, task_manager) = start(node(config, Some("ws://relay.example"), 7), &expected);
    assert_eq!(
        done,
        vec![
            "full parts",
            "pool",
            "queue",
            "connect",
            "network",
            "tasks",
            "full node",
            "start network",
        ]
    );
    assert_eq!(task_manager, vec!["full parts", "relay chain", "tasks", "full node"]);
}

#[test]
fn full_node_with_its_own_relay_chain_node() {
    let config = config(Role::Full, Some(true));
    let expected = Expected::of(&config, 1, None);
    let (done, _) = start(node(config, None, 1), &expected);
    assert_eq!(
        done,
        vec!["full parts", "pool", "queue", "run", "network", "tasks", "full node", "start network"]
    );
}

#[test]
fn full_node_gets_its_options() {
    for url in [None, Some("ws://relay.example")] {
        let config = config(Role::Full, None);
        let expected = Expected::of(&config, 1, None);
        let mut node = node(config, url, 1);
        for _ in 0..6 {
            let (_, event) = expected.perform(node.action());
            assert_eq!(node.resume(event), None);
        }
        match node.action() {
            Action::StartFullNode { collator_options, .. } => {
                assert_eq!(collator_options.relay_chain_rpc_url, url)
            }
            _ => panic!("a full node is to be started"),
        }
    }
}

#[test]
fn force_authoring_is_handed_on() {
    let mut unforced = config(Role::Authority, None);
    unforced.force_authoring = false;
    let expected = Expected::of(&unforced, 3, Some(1));
    let mut node = node(unforced, None, 3);
    for _ in 0..6 {
        let (_, event) = expected.perform(node.action());
        assert_eq!(node.resume(event), None);
    }
    assert!(matches!(node.action(), Action::BuildConsensus { force_authoring: false, .. }));
}

#[test]
fn collator_gets_the_key_of_the_relay_chain_node() {
    let config = config(Role::Authority, None);
    let expected = Expected::of(&config, 3, Some(99));
    let mut node = node(config, None, 3);
    assert_eq!(node.collator_key(), None);
    for _ in 0..7 {
        let (_, event) = expected.perform(node.action());
        assert_eq!(node.resume(event), None);
    }
    assert_eq!(node.collator_key(), Some(&99));
    assert!(matches!(node.action(), Action::StartCollator { collator_key: 99, .. }));
}

#[test]
fn no_key_over_a_connection() {
    let config = config(Role::Authority, None);
    let expected = Expected::of(&config, 3, Some(99));
    let mut node = node(config, Some("ws://relay.example"), 3);
    for _ in 0..6 {
        let (_, event) = expected.perform(node.action());
        assert_eq!(node.resume(event), None);
    }
    assert!(matches!(node.action(), Action::BuildConsensus { .. }));
    assert_eq!(node.collator_key(), None);
}

#[test]
fn every_failure_ends_the_start() {
    for failing in 0..11 {
        let config = config(Role::Authority, Some(false));
        let expected = Expected::of(&config, 3, Some(5));
        let mut node = node(config, None, 3);
        for _ in 0..failing {
            let (_, event) = expected.perform(node.action());
            assert_eq!(node.resume(event), None);
        }
        let relay_chain = matches!(node.action(), Action::RunRelayChain { .. });
        assert_eq!(relay_chain, failing == 5);
        if relay_chain {
            let error = RelayChainError::Other { text: String::from("no relay chain") };
            assert_eq!(
                node.resume(Event::RelayChain(Err(error))),
                Some(Err(NodeError::Other(String::from("no relay chain"))))
            );
        } else {
            assert_eq!(node.resume(Event::Failed(9)), Some(Err(NodeError::Service(9))));
        }
    }
}

#[test]
fn relay_chain_errors() {
    let sub = RelayChainError::ServiceError {
        error: PolkadotError::Sub(4u8),
        text: String::from("service error"),
    };
    assert_eq!(sub.into_node_error(), NodeError::Service(4));
    let service: RelayChainError<u8> = RelayChainError::ServiceError {
        error: PolkadotError::Other,
        text: String::from("other service error"),
    };
    assert_eq!(service.into_node_error(), NodeError::Other(String::from("other service error")));
    let other: RelayChainError<u8> = RelayChainError::Other { text: String::from("rpc error") };
    assert_eq!(other.into_node_error(), NodeError::Other(String::from("rpc error")));
}

#[test]
fn roles() {
    assert!(Role::Authority.is_authority());
    assert!(!Role::Full.is_authority());
}

#[test]
fn live_endpoints() {
    assert_eq!(config(Role::Full, None).live_telemetry_endpoints(), None);
    assert_eq!(config(Role::Full, Some(true)).live_telemetry_endpoints(), None);
    assert_eq!(config(Role::Full, Some(false)).live_telemetry_endpoints(), Some(&ENDPOINTS));
}

/// What follows the failed action is never asked for: the network of a node whose tasks could not
/// be spawned is not among the actions that were done.
#[test]
fn network_never_runs_after_a_failure() {
    let config = config(Role::Full, None);
    let expected = Expected::of(&config, 3, None);
    let mut node = node(config, None, 3);
    let mut done = 0;
    let result = loop {
        let (name, event) = expected.perform(node.action());
        assert_ne!(name, "start network");
        done += 1;
        let event = if name == "tasks" { Event::Failed(1) } else { event };
        if let Some(result) = node.resume(event) {
            break result;
        }
    };
    assert_eq!(result, Err(NodeError::Service(1)));
    assert_eq!(done, 6);
}

/// Without a consensus no collator is started.
#[test]
fn no_collator_without_a_consensus() {
    let config = config(Role::Authority, None);
    let expected = Expected::of(&config, 3, Some(1));
    let mut node = node(config, None, 3);
    let result = loop {
        let (name, event) = expected.perform(node.action());
        assert_ne!(name, "collator");
        let event = if name == "consensus" { Event::Failed(8) } else { event };
        if let Some(result) = node.resume(event) {
            break result;
        }
    };
    assert_eq!(result, Err(NodeError::Service(8)));
}
