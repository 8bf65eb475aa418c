//! Making the components of a node that every command needs, the chain operations too.

use crate::config::{ExecutorParams, NodeConfig};
use crate::types::NodeTypes;
use vstd::prelude::*;

verus! {

/// How many telemetry messages the worker holds back.
pub const TELEMETRY_BUFFER_SIZE: usize = 16;

/// The name under which the telemetry worker is spawned.
pub const TELEMETRY_TASK_NAME: &'static str = "telemetry";

/// The kinds of handle by which a task manager spawns tasks. The node goes down with an
/// essential task.
#[derive(Clone, Copy, Debug, PartialEq, Eq, Structural)]
pub enum Spawner {
    Ordinary,
    Essential,
}

/// A step in making the components.
#[derive(Clone, Copy, Debug, PartialEq, Eq, Structural)]
pub enum PartialStep {
    CreateTelemetry,
    NewFullParts,
    SpawnTelemetryWorker,
    NewTransactionPool,
    BuildImportQueue,
}

/// What is to be done in a step, with what it takes.
#[derive(Debug, PartialEq)]
pub enum PartialAction<'a, N: NodeTypes> {
    /// Make a telemetry worker, and through its handle a telemetry for the endpoints.
    CreateTelemetry { buffer_size: usize, endpoints: &'a N::Endpoints },
    /// Make the executor; with it the client, the backend, the keystore and the task manager,
    /// with the handle of the telemetry where there is one.
    NewFullParts {
        configuration: &'a N::Configuration,
        executor: ExecutorParams<N::WasmMethod>,
        telemetry: Option<&'a N::Telemetry>,
    },
    /// Take a handle of the telemetry worker and spawn the worker, in a task group or in none.
    SpawnTelemetryWorker {
        spawner: Spawner,
        name: &'static str,
        group: Option<&'static str>,
        telemetry_worker: N::TelemetryWorker,
        task_manager: &'a N::TaskManager,
    },
    /// Make the transaction pool, with the options that the configuration has for it and with a
    /// handle to spawn its tasks by.
    NewTransactionPool {
        configuration: &'a N::Configuration,
        is_validator: bool,
        spawner: Spawner,
        client: &'a N::Client,
        task_manager: &'a N::TaskManager,
    },
    /// Have the import queue built, with the handle of the telemetry where there is one.
    BuildImportQueue {
        client: &'a N::Client,
        configuration: &'a N::Configuration,
        telemetry: Option<&'a N::Telemetry>,
        task_manager: &'a N::TaskManager,
    },
}

/// What an action that went well has made.
pub enum PartialMade<N: NodeTypes> {
    /// By `CreateTelemetry`.
    Telemetry { telemetry_worker: N::TelemetryWorker, telemetry: N::Telemetry },
    /// By `NewFullParts`.
    FullParts {
        client: N::Client,
        backend: N::Backend,
        keystore: N::Keystore,
        task_manager: N::TaskManager,
    },
    /// By `SpawnTelemetryWorker`.
    TelemetryWorkerHandle(N::TelemetryWorkerHandle),
    /// By `NewTransactionPool`.
    TransactionPool(N::TransactionPool),
    /// By `BuildImportQueue`.
    ImportQueue(N::ImportQueue),
}

/// The components of a node.
#[derive(Debug, PartialEq)]
pub struct PartialComponents<N: NodeTypes> {
    pub client: N::Client,
    pub backend: N::Backend,
    pub task_manager: N::TaskManager,
    pub keystore_container: N::Keystore,
    pub import_queue: N::ImportQueue,
    pub transaction_pool: N::TransactionPool,
    pub select_chain: (),
    /// The telemetry, and the handle of its worker.
    pub other: (Option<N::Telemetry>, Option<N::TelemetryWorkerHandle>),
}

/// What has been given and what has been made so far, and not been used up.
pub struct PartialParts<N: NodeTypes> {
    pub configuration: Option<N::Configuration>,
    pub telemetry_worker: Option<N::TelemetryWorker>,
    pub telemetry: Option<N::Telemetry>,
    pub telemetry_worker_handle: Option<N::TelemetryWorkerHandle>,
    pub client: Option<N::Client>,
    pub backend: Option<N::Backend>,
    pub keystore: Option<N::Keystore>,
    pub task_manager: Option<N::TaskManager>,
    pub transaction_pool: Option<N::TransactionPool>,
    pub import_queue: Option<N::ImportQueue>,
}

/// A look at what is there.
pub open spec fn lent<'a, A>(part: Option<A>) -> Option<&'a A> {
    match part {
        Some(part) => Some(&part),
        None => None,
    }
}

impl<N: NodeTypes> PartialParts<N> {
    /// What there is before anything has been made.
    pub open spec fn given(configuration: N::Configuration) -> Self {
        PartialParts {
            configuration: Some(configuration),
            telemetry_worker: None,
            telemetry: None,
            telemetry_worker_handle: None,
            client: None,
            backend: None,
            keystore: None,
            task_manager: None,
            transaction_pool: None,
            import_queue: None,
        }
    }

    /// What is there when more has been made.
    pub open spec fn with(self, made: PartialMade<N>) -> Self {
        match made {
            PartialMade::Telemetry { telemetry_worker, telemetry } => PartialParts {
                telemetry_worker: Some(telemetry_worker),
                telemetry: Some(telemetry),
                ..self
            },
            PartialMade::FullParts { client, backend, keystore, task_manager } => PartialParts {
                client: Some(client),
                backend: Some(backend),
                keystore: Some(keystore),
                task_manager: Some(task_manager),
                ..self
            },
            PartialMade::TelemetryWorkerHandle(handle) => PartialParts {
                telemetry_worker_handle: Some(handle),
                ..self
            },
            PartialMade::TransactionPool(pool) => PartialParts {
                transaction_pool: Some(pool),
                ..self
            },
            PartialMade::ImportQueue(queue) => PartialParts { import_queue: Some(queue), ..self },
        }
    }

    /// What is there once the action of a step has been handed out: spawning the telemetry worker
    /// uses it up, all else is only lent.
    pub open spec fn without(self, step: PartialStep) -> Self {
        match step {
            PartialStep::SpawnTelemetryWorker => PartialParts { telemetry_worker: None, ..self },
            _ => self,
        }
    }
}

/// Every step that makes the components for a configuration, in order.
pub open spec fn partial_plan<M, T>(config: NodeConfig<M, T>) -> Seq<PartialStep> {
    if config.reports() {
        seq![
            PartialStep::CreateTelemetry,
            PartialStep::NewFullParts,
            PartialStep::SpawnTelemetryWorker,
            PartialStep::NewTransactionPool,
            PartialStep::BuildImportQueue,
        ]
    } else {
        seq![
            PartialStep::NewFullParts,
            PartialStep::NewTransactionPool,
            PartialStep::BuildImportQueue,
        ]
    }
}

/// What is to be done in a step, as it takes its parts out of `parts`.
pub open spec fn partial_action<'a, N: NodeTypes>(
    step: PartialStep,
    config: NodeConfig<N::WasmMethod, N::Endpoints>,
    parts: PartialParts<N>,
) -> PartialAction<'a, N> {
    match step {
        PartialStep::CreateTelemetry => PartialAction::CreateTelemetry {
            buffer_size: TELEMETRY_BUFFER_SIZE,
            endpoints: &config.endpoints(),
        },
        PartialStep::NewFullParts => PartialAction::NewFullParts {
            configuration: &parts.configuration->0,
            executor: config.executor(),
            telemetry: lent(parts.telemetry),
        },
        PartialStep::SpawnTelemetryWorker => PartialAction::SpawnTelemetryWorker {
            spawner: Spawner::Ordinary,
            name: TELEMETRY_TASK_NAME,
            group: None,
            telemetry_worker: parts.telemetry_worker->0,
            task_manager: &parts.task_manager->0,
        },
        PartialStep::NewTransactionPool => PartialAction::NewTransactionPool {
            configuration: &parts.configuration->0,
            is_validator: config.role is Authority,
            spawner: Spawner::Essential,
            client: &parts.client->0,
            task_manager: &parts.task_manager->0,
        },
        PartialStep::BuildImportQueue => PartialAction::BuildImportQueue {
            client: &parts.client->0,
            configuration: &parts.configuration->0,
            telemetry: lent(parts.telemetry),
            task_manager: &parts.task_manager->0,
        },
    }
}

/// How far the making of the components has come.
pub struct PartialView<N: NodeTypes> {
    pub config: NodeConfig<N::WasmMethod, N::Endpoints>,
    pub parts: PartialParts<N>,
    /// How many steps of the plan have been completed.
    pub completed: nat,
    /// Whether the action of the next step has been handed out.
    pub handed_out: bool,
    /// Whether an action has failed.
    pub failed: bool,
}

impl<N: NodeTypes> PartialView<N> {
    /// Nothing has been done yet.
    pub open spec fn begin(
        config: NodeConfig<N::WasmMethod, N::Endpoints>,
        configuration: N::Configuration,
    ) -> Self {
        PartialView {
            config,
            parts: PartialParts::given(configuration),
            completed: 0,
            handed_out: false,
            failed: false,
        }
    }

    /// Whether another step is to be done.
    pub open spec fn running(self) -> bool {
        !self.failed && self.completed < partial_plan(self.config).len()
    }

    /// Whether all has been done.
    pub open spec fn ready(self) -> bool {
        !self.failed && self.completed == partial_plan(self.config).len()
    }

    /// The step to be done next.
    pub open spec fn step(self) -> PartialStep
        recommends
            self.running(),
    {
        partial_plan(self.config)[self.completed as int]
    }

    /// What is to be done next.
    pub open spec fn next<'a>(self) -> PartialAction<'a, N>
        recommends
            self.running(),
    {
        partial_action(self.step(), self.config, self.parts)
    }

    /// Whether everything is there that the next action takes.
    pub open spec fn lacks_nothing(self) -> bool
        recommends
            self.running(),
    {
        let parts = self.parts;
        match self.step() {
            PartialStep::CreateTelemetry => self.config.reports(),
            PartialStep::NewFullParts => {
                &&& parts.configuration is Some
                &&& parts.telemetry is Some <==> self.config.reports()
            },
            PartialStep::SpawnTelemetryWorker => {
                parts.telemetry_worker is Some && parts.task_manager is Some
            },
            PartialStep::NewTransactionPool => {
                &&& parts.configuration is Some
                &&& parts.client is Some && parts.task_manager is Some
            },
            PartialStep::BuildImportQueue => {
                &&& parts.configuration is Some
                &&& parts.client is Some && parts.task_manager is Some
                &&& parts.telemetry is Some <==> self.config.reports()
            },
        }
    }

    /// The next action has been handed out.
    pub open spec fn handing_out(self) -> Self {
        PartialView { parts: self.parts.without(self.step()), handed_out: true, ..self }
    }

    /// Whether the action that has been handed out makes this.
    pub open spec fn fits(self, made: PartialMade<N>) -> bool {
        match self.step() {
            PartialStep::CreateTelemetry => made is Telemetry,
            PartialStep::NewFullParts => made is FullParts,
            PartialStep::SpawnTelemetryWorker => made is TelemetryWorkerHandle,
            PartialStep::NewTransactionPool => made is TransactionPool,
            PartialStep::BuildImportQueue => made is ImportQueue,
        }
    }

    /// Whether the action that has been handed out may go like this.
    pub open spec fn admits(self, outcome: Result<PartialMade<N>, N::Error>) -> bool {
        &&& self.running()
        &&& self.handed_out
        &&& outcome matches Ok(made) ==> self.fits(made)
    }

    /// What comes of the outcome of the action that was handed out: an error ends it all, and is
    /// the result; success leads to the action after it, or, behind the last, is the result.
    pub open spec fn after(self, outcome: Result<PartialMade<N>, N::Error>) -> (Self, Option<
        Result<(), N::Error>,
    >) {
        match outcome {
            Err(error) => (
                PartialView { handed_out: false, failed: true, ..self },
                Some(Err(error)),
            ),
            Ok(made) => {
                let further = PartialView {
                    parts: self.parts.with(made),
                    completed: self.completed + 1,
                    handed_out: false,
                    ..self
                };
                (further, if further.running() { None } else { Some(Ok(())) })
            },
        }
    }

    /// Every part is there from when it was made on, and the telemetry worker until it is handed
    /// out.
    pub open spec fn has_parts(self) -> bool {
        let telemetry: nat = if self.config.reports() { 1 } else { 0 };
        &&& self.completed <= partial_plan(self.config).len()
        &&& self.parts.configuration is Some
        &&& self.parts.telemetry is Some <==> self.config.reports() && self.completed >= 1
        &&& self.parts.telemetry_worker is Some <==> self.config.reports() && (self.completed == 1
            || self.completed == 2 && !self.handed_out)
        &&& self.parts.telemetry_worker_handle is Some <==> self.config.reports() && self.completed
            >= 3
        &&& self.parts.client is Some <==> self.completed >= telemetry + 1
        &&& self.parts.backend is Some <==> self.completed >= telemetry + 1
        &&& self.parts.keystore is Some <==> self.completed >= telemetry + 1
        &&& self.parts.task_manager is Some <==> self.completed >= telemetry + 1
        &&& self.parts.transaction_pool is Some <==> self.completed >= telemetry + telemetry + 2
        &&& self.parts.import_queue is Some <==> self.completed >= telemetry + telemetry + 3
    }

    /// The components, which are all there once all has been done.
    pub open spec fn components(self) -> PartialComponents<N>
        recommends
            self.ready(),
    {
        PartialComponents {
            client: self.parts.client->0,
            backend: self.parts.backend->0,
            task_manager: self.parts.task_manager->0,
            keystore_container: self.parts.keystore->0,
            import_queue: self.parts.import_queue->0,
            transaction_pool: self.parts.transaction_pool->0,
            select_chain: (),
            other: (self.parts.telemetry, self.parts.telemetry_worker_handle),
        }
    }
}

enum Phase {
    Telemetry,
    FullParts,
    TelemetryWorker,
    TransactionPool,
    ImportQueue,
    Ready,
}

/// The making of the components of a node.
///
/// The owner does what `action` says, with what it hands out, and reports to `resume` what was
/// made, until that returns the result. The components are in `into_components` then.
pub struct NewPartial<N: NodeTypes> {
    config: NodeConfig<N::WasmMethod, N::Endpoints>,
    parts: PartialParts<N>,
    phase: Phase,
    handed_out: bool,
    failed: bool,
}

impl<N: NodeTypes> View for NewPartial<N> {
    type V = PartialView<N>;

    closed spec fn view(&self) -> PartialView<N> {
        let telemetry: nat = if self.config.reports() { 1 } else { 0 };
        PartialView {
            config: self.config,
            parts: self.parts,
            completed: match self.phase {
                Phase::Telemetry => 0,
                Phase::FullParts => telemetry,
                Phase::TelemetryWorker => telemetry + 1,
                Phase::TransactionPool => telemetry + telemetry + 1,
                Phase::ImportQueue => telemetry + telemetry + 2,
                Phase::Ready => telemetry + telemetry + 3,
            },
            handed_out: self.handed_out,
            failed: self.failed,
        }
    }
}

impl<N: NodeTypes> NewPartial<N> {
    /// The steps that concern telemetry are only ever met by a node that reports.
    pub closed spec fn phase_fits(self) -> bool {
        self.phase is Telemetry || self.phase is TelemetryWorker ==> self.config.reports()
    }

    /// Until something fails, every part is there that has been made and not used up.
    pub open spec fn wf(self) -> bool {
        &&& self.phase_fits()
        &&& !self@.failed ==> self@.has_parts()
    }

    /// The configuration that the components are made for.
    pub fn config(&self) -> (config: &NodeConfig<N::WasmMethod, N::Endpoints>)
        ensures
            *config == self@.config,
    {
        &self.config
    }

    /// Hands out the action to be done next.
    pub fn action(&mut self) -> (action: PartialAction<'_, N>)
        requires
            old(self).wf(),
            old(self)@.running(),
            !old(self)@.handed_out,
        ensures
            final(self).wf(),
            action == old(self)@.next(),
            final(self)@ == old(self)@.handing_out(),
            action matches PartialAction::CreateTelemetry { buffer_size, endpoints } ==> {
                &&& buffer_size == 16
                &&& old(self)@.config.telemetry_endpoints is Some
                &&& *endpoints == old(self)@.config.telemetry_endpoints->0.endpoints
            },
            action matches PartialAction::NewFullParts { configuration, executor, telemetry } ==> {
                &&& Some(*configuration) == old(self)@.parts.configuration
                &&& executor.wasm_method == old(self)@.config.wasm_method
                &&& executor.default_heap_pages == old(self)@.config.default_heap_pages
                &&& executor.max_runtime_instances == old(self)@.config.max_runtime_instances
                &&& executor.cache_path is None
                &&& executor.runtime_cache_size == old(self)@.config.runtime_cache_size
                &&& telemetry is Some <==> old(self)@.parts.telemetry is Some
                &&& telemetry matches Some(telemetry) ==> Some(*telemetry)
                    == old(self)@.parts.telemetry
            },
            action matches PartialAction::SpawnTelemetryWorker {
                spawner,
                name,
                group,
                telemetry_worker,
                task_manager,
            } ==> {
                &&& spawner == Spawner::Ordinary
                &&& name@ == "telemetry"@
                &&& group is None
                &&& Some(telemetry_worker) == old(self)@.parts.telemetry_worker
                &&& Some(*task_manager) == old(self)@.parts.task_manager
            },
            action matches PartialAction::NewTransactionPool {
                configuration,
                is_validator,
                spawner,
                client,
                task_manager,
            } ==> {
                &&& Some(*configuration) == old(self)@.parts.configuration
                &&& is_validator <==> old(self)@.config.role is Authority
                &&& spawner == Spawner::Essential
                &&& Some(*client) == old(self)@.parts.client
                &&& Some(*task_manager) == old(self)@.parts.task_manager
            },
            action matches PartialAction::BuildImportQueue {
                client,
                configuration,
                telemetry,
                task_manager,
            } ==> {
                &&& Some(*client) == old(self)@.parts.client
                &&& Some(*configuration) == old(self)@.parts.configuration
                &&& telemetry is Some <==> old(self)@.parts.telemetry is Some
                &&& telemetry matches Some(telemetry) ==> Some(*telemetry)
                    == old(self)@.parts.telemetry
                &&& Some(*task_manager) == old(self)@.parts.task_manager
            },
    {
        self.handed_out = true;
        match self.phase {
            Phase::Telemetry => PartialAction::CreateTelemetry {
                buffer_size: TELEMETRY_BUFFER_SIZE,
                endpoints: self.config.live_telemetry_endpoints().unwrap(),
            },
            Phase::FullParts => PartialAction::NewFullParts {
                configuration: self.parts.configuration.as_ref().unwrap(),
                executor: self.config.executor_params(),
                telemetry: self.parts.telemetry.as_ref(),
            },
            Phase::TelemetryWorker => {
                let telemetry_worker = self.parts.telemetry_worker.take().unwrap();
                PartialAction::SpawnTelemetryWorker {
                    spawner: Spawner::Ordinary,
                    name: TELEMETRY_TASK_NAME,
                    group: None,
                    telemetry_worker,
                    task_manager: self.parts.task_manager.as_ref().unwrap(),
                }
            },
            Phase::TransactionPool => PartialAction::NewTransactionPool {
                configuration: self.parts.configuration.as_ref().unwrap(),
                is_validator: self.config.role.is_authority(),
                spawner: Spawner::Essential,
                client: self.parts.client.as_ref().unwrap(),
                task_manager: self.parts.task_manager.as_ref().unwrap(),
            },
            Phase::ImportQueue | Phase::Ready => PartialAction::BuildImportQueue {
                client: self.parts.client.as_ref().unwrap(),
                configuration: self.parts.configuration.as_ref().unwrap(),
                telemetry: self.parts.telemetry.as_ref(),
                task_manager: self.parts.task_manager.as_ref().unwrap(),
            },
        }
    }

    /// Takes note of how the action went, and keeps what it made. Returns the result once there
    /// is one.
    pub fn resume(&mut self, outcome: Result<PartialMade<N>, N::Error>) -> (result: Option<
        Result<(), N::Error>,
    >)
        requires
            old(self).wf(),
            old(self)@.admits(outcome),
        ensures
            final(self).wf(),
            (final(self)@, result) == old(self)@.after(outcome),
            final(self)@.config == old(self)@.config,
            final(self)@.parts.configuration == old(self)@.parts.configuration,
            outcome matches Err(error) ==> result == Some(Err::<(), N::Error>(error)),
            outcome is Ok ==> {
                &&& final(self)@.completed == old(self)@.completed + 1
                &&& result is None || result == Some(Ok::<(), N::Error>(()))
            },
    {
        self.handed_out = false;
        match outcome {
            Err(error) => {
                self.failed = true;
                Some(Err(error))
            },
            Ok(made) => {
                match made {
                    PartialMade::Telemetry { telemetry_worker, telemetry } => {
                        self.parts.telemetry_worker = Some(telemetry_worker);
                        self.parts.telemetry = Some(telemetry);
                    },
                    PartialMade::FullParts { client, backend, keystore, task_manager } => {
                        self.parts.client = Some(client);
                        self.parts.backend = Some(backend);
                        self.parts.keystore = Some(keystore);
                        self.parts.task_manager = Some(task_manager);
                    },
                    PartialMade::TelemetryWorkerHandle(handle) => {
                        self.parts.telemetry_worker_handle = Some(handle);
                    },
                    PartialMade::TransactionPool(pool) => {
                        self.parts.transaction_pool = Some(pool);
                    },
                    PartialMade::ImportQueue(queue) => {
                        self.parts.import_queue = Some(queue);
                    },
                }
                let reports = self.config.live_telemetry_endpoints().is_some();
                self.phase = match self.phase {
                    Phase::Telemetry => Phase::FullParts,
                    Phase::FullParts => if reports {
                        Phase::TelemetryWorker
                    } else {
                        Phase::TransactionPool
                    },
                    Phase::TelemetryWorker => Phase::TransactionPool,
                    Phase::TransactionPool => Phase::ImportQueue,
                    Phase::ImportQueue | Phase::Ready => Phase::Ready,
                };
                match self.phase {
                    Phase::Ready => Some(Ok(())),
                    _ => None,
                }
            },
        }
    }

    /// Takes the configuration and the components out, once the latter have all been made.
    pub(crate) fn take_components(&mut self) -> (taken: (N::Configuration, PartialComponents<N>))
        requires
            old(self).wf(),
            old(self)@.ready(),
        ensures
            taken.0 == old(self)@.parts.configuration->0,
            taken.1 == old(self)@.components(),
            final(self)@.config == old(self)@.config,
    {
        let components = PartialComponents {
            client: self.parts.client.take().unwrap(),
            backend: self.parts.backend.take().unwrap(),
            task_manager: self.parts.task_manager.take().unwrap(),
            keystore_container: self.parts.keystore.take().unwrap(),
            import_queue: self.parts.import_queue.take().unwrap(),
            transaction_pool: self.parts.transaction_pool.take().unwrap(),
            select_chain: (),
            other: (self.parts.telemetry.take(), self.parts.telemetry_worker_handle.take()),
        };
        (self.parts.configuration.take().unwrap(), components)
    }

    /// The components, once they have all been made: each is the very one that was made.
    pub fn into_components(self) -> (components: PartialComponents<N>)
        requires
            self.wf(),
            self@.ready(),
        ensures
            components == self@.components(),
            Some(components.client) == self@.parts.client,
            Some(components.backend) == self@.parts.backend,
            Some(components.task_manager) == self@.parts.task_manager,
            Some(components.keystore_container) == self@.parts.keystore,
            Some(components.import_queue) == self@.parts.import_queue,
            Some(components.transaction_pool) == self@.parts.transaction_pool,
            components.other == (self@.parts.telemetry, self@.parts.telemetry_worker_handle),
    {
        let mut partial = self;
        let (_, components) = partial.take_components();
        components
    }
}

/// Begins to make the components of a node for a configuration, of which `config` is what is read.
pub fn new_partial<N: NodeTypes>(
    config: NodeConfig<N::WasmMethod, N::Endpoints>,
    configuration: N::Configuration,
) -> (partial: NewPartial<N>)
    ensures
        partial.wf(),
        partial@ == PartialView::<N>::begin(config, configuration),
        partial@.config == config,
        partial@.parts.configuration == Some(configuration),
        partial@.completed == 0,
        !partial@.handed_out && !partial@.failed,
        partial@.running(),
{
    let phase = match config.live_telemetry_endpoints() {
        Some(_) => Phase::Telemetry,
        None => Phase::FullParts,
    };
    let parts = PartialParts {
        configuration: Some(configuration),
        telemetry_worker: None,
        telemetry: None,
        telemetry_worker_handle: None,
        client: None,
        backend: None,
        keystore: None,
        task_manager: None,
        transaction_pool: None,
        import_queue: None,
    };
    NewPartial { config, parts, phase, handed_out: false, failed: false }
}

/// The steps that make the components, in order, depend on the telemetry endpoints alone: telemetry
/// comes first where there are endpoints to report to and its worker is spawned right behind the
/// making of the full parts; without any, neither happens. The pool and then the import queue
/// come last.
pub proof fn law_steps_that_make_components<M, T>(config: NodeConfig<M, T>)
    ensures
        ({
            let plan = partial_plan(config);
            if config.telemetry_endpoints is Some && !config.telemetry_endpoints->0.is_empty {
                &&& plan.len() == 5
                &&& plan[0] is CreateTelemetry
                &&& plan[1] is NewFullParts
                &&& plan[2] is SpawnTelemetryWorker
                &&& plan[3] is NewTransactionPool
                &&& plan[4] is BuildImportQueue
            } else {
                &&& plan.len() == 3
                &&& plan[0] is NewFullParts
                &&& plan[1] is NewTransactionPool
                &&& plan[2] is BuildImportQueue
            }
        }),
{
}

/// Whatever comes of an action that was handed out can be reported: any error, and anything of the
/// kind that the action makes.
pub proof fn law_any_outcome_can_be_reported<N: NodeTypes>(
    view: PartialView<N>,
    outcome: Result<PartialMade<N>, N::Error>,
)
    requires
        !view.failed,
        view.handed_out,
        view.completed < partial_plan(view.config).len(),
    ensures
        view.admits(outcome) <==> match outcome {
            Err(_) => true,
            Ok(made) => match partial_plan(view.config)[view.completed as int] {
                PartialStep::CreateTelemetry => made is Telemetry,
                PartialStep::NewFullParts => made is FullParts,
                PartialStep::SpawnTelemetryWorker => made is TelemetryWorkerHandle,
                PartialStep::NewTransactionPool => made is TransactionPool,
                PartialStep::BuildImportQueue => made is ImportQueue,
            },
        },
{
}

/// The making of the components begins with the configuration that was given, and with nothing
/// done; every configuration will do.
pub proof fn law_partial_begins_as_given<N: NodeTypes>(
    config: NodeConfig<N::WasmMethod, N::Endpoints>,
    configuration: N::Configuration,
    partial: NewPartial<N>,
)
    requires
        call_ensures(new_partial::<N>, (config, configuration), partial),
    ensures
        partial@.config == config,
        partial@.parts.configuration == Some(configuration),
        partial@.completed == 0,
        !partial@.handed_out && !partial@.failed,
        partial@ == PartialView::<N>::begin(config, configuration),
        call_requires(new_partial::<N>, (config, configuration)),
{
}

/// The components that come out are the parts that were made, each under its own name.
pub proof fn law_components_are_the_parts<N: NodeTypes>(
    partial: NewPartial<N>,
    components: PartialComponents<N>,
)
    requires
        partial.wf(),
        partial@.ready(),
        call_ensures(NewPartial::<N>::into_components, (partial,), components),
    ensures
        Some(components.client) == partial@.parts.client,
        Some(components.backend) == partial@.parts.backend,
        Some(components.task_manager) == partial@.parts.task_manager,
        Some(components.keystore_container) == partial@.parts.keystore,
        Some(components.import_queue) == partial@.parts.import_queue,
        Some(components.transaction_pool) == partial@.parts.transaction_pool,
        components.other.0 == partial@.parts.telemetry,
        components.other.1 == partial@.parts.telemetry_worker_handle,
        components == partial@.components(),
{
}

} // verus!
