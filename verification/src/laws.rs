//! What holds of every start of a node.

use crate::config::{CollatorOptions, NodeConfig};
use crate::error::NodeError;
use crate::partial::{
    lent, partial_action, partial_plan, PartialMade, PartialParts, PartialStep, PartialView,
    Spawner,
};
use crate::start::{failure, lemma_start_plan, start_plan, Event, StartParts, StartView, Step};
use crate::types::NodeTypes;
use vstd::prelude::*;

verus! {

/// A node is started by first making the components that every command needs, just as a command
/// that needs no more than these would make them.
pub proof fn law_components_first<M, T, U>(config: NodeConfig<M, T>, options: CollatorOptions<U>)
    ensures
        ({
            let plan = start_plan(config, options);
            let partial = partial_plan(config);
            &&& partial.len() < plan.len()
            &&& forall|i: int|
                0 <= i < plan.len() ==> (#[trigger] plan[i] is Partial <==> i < partial.len())
            &&& forall|i: int|
                0 <= i < partial.len() ==> #[trigger] plan[i] == Step::Partial(partial[i])
        }),
{
    lemma_start_plan(config, options);
}

/// The network runs only when all else has been done: starting it is the last step, and no other.
pub proof fn law_network_starts_last<M, T, U>(config: NodeConfig<M, T>, options: CollatorOptions<U>)
    ensures
        ({
            let plan = start_plan(config, options);
            &&& plan.len() > 0
            &&& forall|i: int|
                0 <= i < plan.len() ==> (#[trigger] plan[i] is StartNetwork <==> i == plan.len()
                    - 1)
        }),
{
    lemma_start_plan(config, options);
}

/// Nothing is done twice.
pub proof fn law_no_step_twice<M, T, U>(config: NodeConfig<M, T>, options: CollatorOptions<U>)
    ensures
        start_plan(config, options).no_duplicates(),
{
    lemma_start_plan(config, options);
}

/// The role of a node is taken the same way throughout: an authority has a validating
/// transaction pool, builds the consensus and starts a collator; any other node has a pool that
/// does not validate and starts as a full node. No node does both.
pub proof fn law_role_decides<N: NodeTypes>(
    config: NodeConfig<N::WasmMethod, N::Endpoints>,
    options: CollatorOptions<N::Url>,
    parts: PartialParts<N>,
)
    ensures
        ({
            let plan = start_plan(config, options);
            let authority = config.role is Authority;
            &&& plan.contains(Step::BuildConsensus) <==> authority
            &&& plan.contains(Step::StartCollator) <==> authority
            &&& plan.contains(Step::StartFullNode) <==> !authority
            &&& partial_action(PartialStep::NewTransactionPool, config, parts)->is_validator
                == authority
        }),
{
    lemma_start_plan(config, options);
    let plan = start_plan(config, options);
    let relay = partial_plan(config).len() as int;
    if config.role is Authority {
        assert(plan[relay + 3] == Step::BuildConsensus);
        assert(plan[relay + 4] == Step::StartCollator);
    } else {
        assert(plan[relay + 3] == Step::StartFullNode);
    }
}

/// Two configurations that only differ in that one has no telemetry endpoints and the other an
/// empty list of them start a node in the same way: by the same steps, and with the same action in
/// each, since no step has a use for the endpoints.
pub proof fn law_empty_endpoints_are_none<N: NodeTypes>(
    none: NodeConfig<N::WasmMethod, N::Endpoints>,
    empty: NodeConfig<N::WasmMethod, N::Endpoints>,
    options: CollatorOptions<N::Url>,
    parts: PartialParts<N>,
)
    requires
        none.telemetry_endpoints is None,
        empty.telemetry_endpoints matches Some(given) && given.is_empty,
        empty == (NodeConfig { telemetry_endpoints: empty.telemetry_endpoints, ..none }),
    ensures
        partial_plan(none) == partial_plan(empty),
        start_plan(none, options) == start_plan(empty, options),
        forall|step: PartialStep|
            partial_plan(none).contains(step) ==> #[trigger] partial_action(step, none, parts)
                == partial_action(step, empty, parts),
{
}

/// How far a start has come, and what the last event led to, after some events, each of which
/// tells how the action went that had been handed out.
pub open spec fn run<N: NodeTypes>(begin: StartView<N>, events: Seq<Event<N>>) -> (
    StartView<N>,
    Option<Result<(), NodeError<N::Error>>>,
)
    decreases events.len(),
{
    if events.len() == 0 {
        (begin, None)
    } else {
        run(begin, events.drop_last()).0.handing_out().after(events.last())
    }
}

/// Whether every event could come when it came.
pub open spec fn admitted<N: NodeTypes>(begin: StartView<N>, events: Seq<Event<N>>) -> bool
    decreases events.len(),
{
    events.len() > 0 ==> {
        &&& admitted(begin, events.drop_last())
        &&& run(begin, events.drop_last()).0.handing_out().admits(events.last())
    }
}

/// A start begins with what has been given, and with nothing done.
pub open spec fn begins<N: NodeTypes>(view: StartView<N>) -> bool {
    &&& view.completed == 0 && !view.handed_out && !view.failed
    &&& view.partial == Some(
        PartialView::<N>::begin(view.config, view.partial->0.parts.configuration->0),
    )
    &&& view.parts == StartParts::<N>::given(
        view.parts.polkadot_config->0,
        view.parts.hwbench,
        view.parts.rpc_ext_builder->0,
        view.parts.prometheus_registry,
    )
}

/// A node is started if and only if every step of its plan has succeeded, one after the other.
/// Where one fails, that is the end: nothing is done after it, and its error is the result. Until
/// either happens there is no result.
pub proof fn law_first_failure_ends_start<N: NodeTypes>(
    begin: StartView<N>,
    events: Seq<Event<N>>,
)
    requires
        begins(begin),
        admitted(begin, events),
        events.len() > 0,
    ensures
        events.len() <= begin.plan().len(),
        forall|i: int| 0 <= i < events.len() - 1 ==> failure(#[trigger] events[i]) is None,
        run(begin, events).1 == (match failure(events.last()) {
            Some(error) => Some(Err(error)),
            None => if events.len() == begin.plan().len() {
                Some(Ok(()))
            } else {
                None
            },
        }),
        failure(events.last()) is None ==> run(begin, events).0.completed == events.len(),
        run(begin, events).0.failed == (failure(events.last()) is Some),
        run(begin, events).0.plan() == begin.plan(),
        run(begin, events).0.para_id == begin.para_id,
    decreases events.len(),
{
    let earlier = events.drop_last();
    if earlier.len() > 0 {
        law_first_failure_ends_start(begin, earlier);
        assert(failure(earlier.last()) is None);
        assert forall|i: int| 0 <= i < events.len() - 1 implies failure(
            #[trigger] events[i],
        ) is None by {
            assert(events[i] == earlier[i]);
        }
    } else {
        assert(run(begin, earlier) == (begin, None::<Result<(), NodeError<N::Error>>>));
    }
}

/// Making a component, and taking note of it, keeps the parts together.
proof fn lemma_partial_step<N: NodeTypes>(before: PartialView<N>, made: PartialMade<N>)
    requires
        before.has_parts(),
        before.running(),
        !before.handed_out,
        before.handing_out().fits(made),
    ensures
        before.handing_out().after(Ok(made)).0.has_parts(),
{
}

/// The same of every step of a start.
proof fn lemma_step<N: NodeTypes>(before: StartView<N>, event: Event<N>)
    requires
        before.has_parts(),
        before.running(),
        !before.handed_out,
        before.handing_out().admits(event),
        failure(event) is None,
    ensures
        before.handing_out().after(event).0.has_parts(),
{
    lemma_start_plan(before.config, before.options);
    if before.step() is Partial {
        lemma_partial_step(before.partial->0, event->Partial_0);
    }
}

/// Whatever an action takes is there when it is handed out: every part has been given or made
/// before, and has not been handed out for good by an earlier action. So nothing that is used up
/// is ever needed again. The telemetry is handed on wherever the node reports, and nowhere else.
pub proof fn law_parts_are_there<N: NodeTypes>(begin: StartView<N>, events: Seq<Event<N>>)
    requires
        begins(begin),
        admitted(begin, events),
        !run(begin, events).0.failed,
    ensures
        run(begin, events).0.has_parts(),
        run(begin, events).0.running() ==> run(begin, events).0.lacks_nothing(),
        !run(begin, events).0.handed_out,
        run(begin, events).0.config == begin.config,
        run(begin, events).0.options == begin.options,
        run(begin, events).0.completed == events.len(),
    decreases events.len(),
{
    if events.len() > 0 {
        law_parts_are_there(begin, events.drop_last());
        lemma_step(run(begin, events.drop_last()).0, events.last());
    }
    lemma_start_plan(begin.config, begin.options);
}

/// No key for a collator is ever noted where the relay chain is reached over a connection.
proof fn lemma_no_key_over_connection<N: NodeTypes>(begin: StartView<N>, events: Seq<Event<N>>)
    requires
        begins(begin),
        begin.options.relay_chain_rpc_url is Some,
    ensures
        run(begin, events).0.parts.collator_key is None,
        run(begin, events).0.options == begin.options,
    decreases events.len(),
{
    if events.len() > 0 {
        lemma_no_key_over_connection(begin, events.drop_last());
    }
}

/// A node that reaches the relay chain over a connection never has a key for a collator, so as
/// an authority it is never brought to start one.
pub proof fn law_no_collator_over_connection<N: NodeTypes>(
    begin: StartView<N>,
    events: Seq<Event<N>>,
)
    requires
        begins(begin),
        begin.options.relay_chain_rpc_url is Some,
        admitted(begin, events),
    ensures
        ({
            let view = run(begin, events).0;
            &&& view.parts.collator_key is None
            &&& view.running() ==> view.step() != Step::StartCollator
        }),
{
    let view = run(begin, events).0;
    lemma_no_key_over_connection(begin, events);
    lemma_start_plan(view.config, view.options);
    if view.running() {
        law_parts_are_there(begin, events);
    }
}

/// How far the making of the components has come, and what the last outcome led to, after some
/// outcomes, each of the action that had been handed out.
pub open spec fn partial_run<N: NodeTypes>(
    begin: PartialView<N>,
    outcomes: Seq<Result<PartialMade<N>, N::Error>>,
) -> (PartialView<N>, Option<Result<(), N::Error>>)
    decreases outcomes.len(),
{
    if outcomes.len() == 0 {
        (begin, None)
    } else {
        partial_run(begin, outcomes.drop_last()).0.handing_out().after(outcomes.last())
    }
}

/// Whether every outcome could come when it came.
pub open spec fn partial_admitted<N: NodeTypes>(
    begin: PartialView<N>,
    outcomes: Seq<Result<PartialMade<N>, N::Error>>,
) -> bool
    decreases outcomes.len(),
{
    outcomes.len() > 0 ==> {
        &&& partial_admitted(begin, outcomes.drop_last())
        &&& partial_run(begin, outcomes.drop_last()).0.handing_out().admits(outcomes.last())
    }
}

/// The components are all made if and only if every step of the plan has succeeded, one after the
/// other. Where one fails, nothing is done after it, and its error is the result. Until either
/// happens there is no result.
pub proof fn law_first_failure_ends_partial<N: NodeTypes>(
    config: NodeConfig<N::WasmMethod, N::Endpoints>,
    configuration: N::Configuration,
    outcomes: Seq<Result<PartialMade<N>, N::Error>>,
)
    requires
        partial_admitted(PartialView::<N>::begin(config, configuration), outcomes),
        outcomes.len() > 0,
    ensures
        outcomes.len() <= partial_plan(config).len(),
        forall|i: int| 0 <= i < outcomes.len() - 1 ==> #[trigger] outcomes[i] is Ok,
        ({
            let after = partial_run(PartialView::<N>::begin(config, configuration), outcomes);
            &&& after.1 == (match outcomes.last() {
                Err(error) => Some(Err(error)),
                Ok(_) => if outcomes.len() == partial_plan(config).len() {
                    Some(Ok(()))
                } else {
                    None
                },
            })
            &&& outcomes.last() is Ok ==> after.0.completed == outcomes.len()
            &&& after.0.failed == (outcomes.last() is Err)
            &&& after.0.config == config
        }),
    decreases outcomes.len(),
{
    let begin = PartialView::<N>::begin(config, configuration);
    let earlier = outcomes.drop_last();
    if earlier.len() > 0 {
        law_first_failure_ends_partial(config, configuration, earlier);
        assert(earlier.last() is Ok);
        assert forall|i: int| 0 <= i < outcomes.len() - 1 implies #[trigger] outcomes[i] is Ok by {
            assert(outcomes[i] == earlier[i]);
        }
    } else {
        assert(partial_run(begin, earlier) == (begin, None::<Result<(), N::Error>>));
    }
}

/// The index of the step that makes the client, the backend, the keystore and the task manager.
pub open spec fn full_parts_index<M, T>(config: NodeConfig<M, T>) -> int {
    if config.reports() {
        1
    } else {
        0
    }
}

/// The parts of the components are the very ones that were made: each is what the outcome of its
/// step brought, from then on. A node has a telemetry, and the handle of its worker, if and only
/// if it reports.
pub proof fn law_components_are_those_made<N: NodeTypes>(
    config: NodeConfig<N::WasmMethod, N::Endpoints>,
    configuration: N::Configuration,
    outcomes: Seq<Result<PartialMade<N>, N::Error>>,
)
    requires
        partial_admitted(PartialView::<N>::begin(config, configuration), outcomes),
        !partial_run(PartialView::<N>::begin(config, configuration), outcomes).0.failed,
    ensures
        ({
            let view = partial_run(PartialView::<N>::begin(config, configuration), outcomes).0;
            let made = |i: int| outcomes[i]->Ok_0;
            let full = full_parts_index(config);
            let pool = partial_plan(config).len() - 2;
            let queue = partial_plan(config).len() - 1;
            &&& view.has_parts() && !view.handed_out && view.config == config
            &&& view.completed == outcomes.len()
            &&& view.parts.configuration == Some(configuration)
            &&& outcomes.len() > full ==> {
                &&& view.parts.client == Some(made(full)->client)
                &&& view.parts.backend == Some(made(full)->backend)
                &&& view.parts.keystore == Some(made(full)->keystore)
                &&& view.parts.task_manager == Some(made(full)->task_manager)
            }
            &&& outcomes.len() > pool ==> view.parts.transaction_pool == Some(
                made(pool)->TransactionPool_0,
            )
            &&& outcomes.len() > queue ==> view.parts.import_queue == Some(
                made(queue)->ImportQueue_0,
            )
            &&& config.reports() && outcomes.len() > 0 ==> view.parts.telemetry == Some(
                made(0)->telemetry,
            )
            &&& config.reports() && 0 < outcomes.len() <= 2 ==> view.parts.telemetry_worker == Some(
                made(0)->telemetry_worker,
            )
            &&& config.reports() && outcomes.len() > 2 ==> view.parts.telemetry_worker_handle
                == Some(made(2)->TelemetryWorkerHandle_0)
            &&& !config.reports() ==> view.parts.telemetry is None
                && view.parts.telemetry_worker_handle is None
        }),
    decreases outcomes.len(),
{
    if outcomes.len() > 0 {
        let earlier = outcomes.drop_last();
        law_components_are_those_made(config, configuration, earlier);
        let before = partial_run(PartialView::<N>::begin(config, configuration), earlier).0;
        lemma_partial_step(before, outcomes.last()->Ok_0);
        assert forall|i: int| 0 <= i < earlier.len() implies earlier[i] == outcomes[i] by {}
    }
}

/// The import queue is built last, for the configuration that was given, and with the very client
/// and task manager that are among the components; so is the transaction pool before it. The queue
/// is told of the telemetry of the components, of which there is one if and only if the node
/// reports.
pub proof fn law_import_queue_gets_components<N: NodeTypes>(
    config: NodeConfig<N::WasmMethod, N::Endpoints>,
    configuration: N::Configuration,
    outcomes: Seq<Result<PartialMade<N>, N::Error>>,
)
    requires
        partial_admitted(PartialView::<N>::begin(config, configuration), outcomes),
        partial_run(PartialView::<N>::begin(config, configuration), outcomes).0.ready(),
    ensures
        ({
            let components = partial_run(
                PartialView::<N>::begin(config, configuration),
                outcomes,
            ).0.components();
            let before_queue = partial_run(
                PartialView::<N>::begin(config, configuration),
                outcomes.drop_last(),
            ).0;
            let before_pool = partial_run(
                PartialView::<N>::begin(config, configuration),
                outcomes.drop_last().drop_last(),
            ).0;
            let queue = before_queue.next();
            let pool = before_pool.next();
            &&& before_queue.step() == PartialStep::BuildImportQueue
            &&& *queue->BuildImportQueue_client == components.client
            &&& *queue->BuildImportQueue_configuration == configuration
            &&& *queue->BuildImportQueue_task_manager == components.task_manager
            &&& queue->BuildImportQueue_telemetry == lent(components.other.0)
            &&& components.import_queue == outcomes.last()->Ok_0->ImportQueue_0
            &&& components.other.0 is Some <==> config.reports()
            &&& components.other.1 is Some <==> config.reports()
            &&& before_pool.step() == PartialStep::NewTransactionPool
            &&& *pool->NewTransactionPool_configuration == configuration
            &&& *pool->NewTransactionPool_client == components.client
            &&& *pool->NewTransactionPool_task_manager == components.task_manager
        }),
{
    law_components_are_those_made(config, configuration, outcomes);
    law_components_are_those_made(config, configuration, outcomes.drop_last());
    assert(partial_admitted(PartialView::<N>::begin(config, configuration), outcomes.drop_last()));
    law_components_are_those_made(config, configuration, outcomes.drop_last().drop_last());
}

/// The task manager as it was made, or as the last action that had it gave it back.
pub open spec fn last_task_manager<N: NodeTypes>(events: Seq<Event<N>>) -> Option<N::TaskManager>
    decreases events.len(),
{
    if events.len() == 0 {
        None
    } else {
        match events.last() {
            Event::Partial(PartialMade::FullParts { task_manager, .. }) => Some(task_manager),
            Event::RelayChain(Ok(made)) => Some(made.task_manager),
            Event::Tasks { task_manager, .. } => Some(task_manager),
            Event::Collator { task_manager } => Some(task_manager),
            Event::FullNode { task_manager } => Some(task_manager),
            _ => last_task_manager(events.drop_last()),
        }
    }
}

/// The telemetry as it was made, or as the action that had it gave it back.
pub open spec fn last_telemetry<N: NodeTypes>(events: Seq<Event<N>>) -> Option<N::Telemetry>
    decreases events.len(),
{
    if events.len() == 0 {
        None
    } else {
        match events.last() {
            Event::Partial(PartialMade::Telemetry { telemetry, .. }) => Some(telemetry),
            Event::Tasks { telemetry, .. } => telemetry,
            _ => last_telemetry(events.drop_last()),
        }
    }
}

/// There is one client, one task manager and one telemetry: the client that was made, and the
/// task manager and the telemetry as the last action that had them left them. Whatever step is to
/// be done next, it gets these: building the import queue, the transaction pool and the consensus,
/// and spawning the tasks with the RPC server among them; and these are what a started node leaves
/// to its owner.
pub proof fn law_one_client_and_task_manager<N: NodeTypes>(
    begin: StartView<N>,
    events: Seq<Event<N>>,
)
    requires
        begins(begin),
        admitted(begin, events),
        !run(begin, events).0.failed,
    ensures
        ({
            let view = run(begin, events).0;
            let full = full_parts_index(begin.config);
            let client = events[full]->Partial_0->client;
            let task_manager = last_task_manager(events)->0;
            let telemetry = last_telemetry(events);
            let next = view.next();
            &&& events.len() > full ==> view.client() == Some(client)
            &&& events.len() > full ==> last_task_manager(events) is Some
            &&& view.task_manager() == last_task_manager(events)
            &&& view.telemetry() == telemetry
            &&& view.running() ==> match view.step() {
                Step::Partial(PartialStep::NewTransactionPool) => {
                    &&& *next->Partial_0->NewTransactionPool_client == client
                    &&& *next->Partial_0->NewTransactionPool_task_manager == task_manager
                },
                Step::Partial(PartialStep::BuildImportQueue) => {
                    &&& *next->Partial_0->BuildImportQueue_client == client
                    &&& *next->Partial_0->BuildImportQueue_task_manager == task_manager
                    &&& next->Partial_0->BuildImportQueue_telemetry == lent(telemetry)
                },
                Step::Partial(_) => true,
                Step::ConnectRelayChain => next->ConnectRelayChain_task_manager == task_manager,
                Step::RunRelayChain => next->RunRelayChain_task_manager == task_manager,
                Step::BuildNetwork => {
                    &&& *next->BuildNetwork_client == client
                    &&& *next->BuildNetwork_task_manager == task_manager
                },
                Step::SpawnTasks => {
                    &&& *next->SpawnTasks_client == client
                    &&& next->SpawnTasks_task_manager == task_manager
                    &&& next->SpawnTasks_telemetry == telemetry
                },
                Step::BuildConsensus => {
                    &&& *next->BuildConsensus_client == client
                    &&& *next->BuildConsensus_task_manager == task_manager
                    &&& next->BuildConsensus_telemetry == lent(telemetry)
                },
                Step::StartCollator => {
                    &&& *next->StartCollator_client == client
                    &&& next->StartCollator_task_manager == task_manager
                },
                Step::StartFullNode => {
                    &&& *next->StartFullNode_client == client
                    &&& next->StartFullNode_task_manager == task_manager
                },
                Step::StartNetwork => true,
            }
            &&& view.started() ==> {
                &&& view.parts.task_manager == Some(task_manager)
                &&& view.parts.client == Some(client)
            }
        }),
{
    lemma_one_client_and_task_manager(begin, events);
    law_parts_are_there(begin, events);
    lemma_start_plan(begin.config, begin.options);
}

/// Where the client, the task manager and the telemetry stand after some events.
proof fn lemma_one_client_and_task_manager<N: NodeTypes>(
    begin: StartView<N>,
    events: Seq<Event<N>>,
)
    requires
        begins(begin),
        admitted(begin, events),
        !run(begin, events).0.failed,
    ensures
        ({
            let view = run(begin, events).0;
            let full = full_parts_index(begin.config);
            &&& events.len() > full ==> view.client() == Some(events[full]->Partial_0->client)
            &&& view.task_manager() == last_task_manager(events)
            &&& view.telemetry() == last_telemetry(events)
        }),
    decreases events.len(),
{
    if events.len() > 0 {
        let earlier = events.drop_last();
        let before = run(begin, earlier).0;
        lemma_one_client_and_task_manager(begin, earlier);
        law_parts_are_there(begin, earlier);
        law_parts_are_there(begin, events);
        lemma_start_plan(before.config, before.options);
        assert forall|i: int| 0 <= i < earlier.len() implies earlier[i] == events[i] by {}
    }
}

/// What has been given stays what it was, and every other part is the very one that was made:
/// each is what the event of its step brought, for as long as it has not been handed out for good.
/// So the network is built with the transaction pool and the import queue of the components and
/// with the relay chain that was got at; the tasks are spawned, the consensus is built and the
/// collator or the full node is started with what had been made before; and the collator has the
/// key that the relay chain node in this process made.
pub proof fn law_parts_are_those_made<N: NodeTypes>(begin: StartView<N>, events: Seq<Event<N>>)
    requires
        begins(begin),
        admitted(begin, events),
        !run(begin, events).0.failed,
    ensures
        ({
            let view = run(begin, events).0;
            let parts = view.parts;
            let given = begin.parts;
            let relay = partial_plan(begin.config).len() as int;
            let full = full_parts_index(begin.config);
            &&& view.config == begin.config && view.options == begin.options && view.para_id
                == begin.para_id
            &&& parts.prometheus_registry == given.prometheus_registry
            &&& events.len() <= relay + 2 ==> view.parachain_config() == begin.parachain_config()
            &&& events.len() <= relay + 2 ==> parts.rpc_ext_builder == given.rpc_ext_builder
            &&& events.len() <= relay ==> parts.polkadot_config == given.polkadot_config
            &&& events.len() <= relay ==> parts.hwbench == given.hwbench
            &&& events.len() >= relay ==> {
                &&& parts.backend == Some(events[full]->Partial_0->backend)
                &&& parts.keystore == Some(events[full]->Partial_0->keystore)
                &&& parts.transaction_pool == Some(
                    events[relay - 2]->Partial_0->TransactionPool_0,
                )
            }
            &&& events.len() == relay && begin.config.reports()
                ==> parts.telemetry_worker_handle == Some(
                events[2]->Partial_0->TelemetryWorkerHandle_0,
            )
            &&& parts.import_queue is Some ==> parts.import_queue == Some(
                events[relay - 1]->Partial_0->ImportQueue_0,
            )
            &&& parts.relay_chain is Some ==> parts.relay_chain == Some(
                events[relay]->RelayChain_0->Ok_0.relay_chain,
            )
            &&& parts.collator_key is Some ==> parts.collator_key
                == events[relay]->RelayChain_0->Ok_0.collator_key
            &&& events.len() > relay + 1 ==> parts.network == Some(events[relay + 1]->network)
            &&& parts.shared_import_queue is Some ==> parts.shared_import_queue == Some(
                events[relay + 1]->import_queue,
            )
            &&& parts.network_channels is Some ==> parts.network_channels == Some(
                events[relay + 1]->network_channels,
            )
            &&& parts.network_starter is Some ==> parts.network_starter == Some(
                events[relay + 1]->network_starter,
            )
            &&& parts.consensus is Some ==> parts.consensus == Some(
                events[relay + 3]->Consensus_0,
            )
        }),
{
    lemma_components_in_start(begin, events);
    lemma_parts_are_those_made(begin, events);
}

/// The components of a start are those that their steps make.
proof fn lemma_components_in_start<N: NodeTypes>(begin: StartView<N>, events: Seq<Event<N>>)
    requires
        begins(begin),
        admitted(begin, events),
        !run(begin, events).0.failed,
    ensures
        ({
            let view = run(begin, events).0;
            let relay = partial_plan(begin.config).len() as int;
            let full = full_parts_index(begin.config);
            &&& view.partial matches Some(partial) ==> {
                &&& events.len() > full ==> {
                    &&& partial.parts.backend == Some(events[full]->Partial_0->backend)
                    &&& partial.parts.keystore == Some(events[full]->Partial_0->keystore)
                }
                &&& events.len() > relay - 2 ==> partial.parts.transaction_pool == Some(
                    events[relay - 2]->Partial_0->TransactionPool_0,
                )
                &&& begin.config.reports() && events.len() > 2
                    ==> partial.parts.telemetry_worker_handle == Some(
                    events[2]->Partial_0->TelemetryWorkerHandle_0,
                )
            }
            &&& events.len() >= relay ==> {
                &&& view.parts.backend == Some(events[full]->Partial_0->backend)
                &&& view.parts.keystore == Some(events[full]->Partial_0->keystore)
                &&& view.parts.transaction_pool == Some(
                    events[relay - 2]->Partial_0->TransactionPool_0,
                )
            }
            &&& events.len() == relay && begin.config.reports()
                ==> view.parts.telemetry_worker_handle == Some(
                events[2]->Partial_0->TelemetryWorkerHandle_0,
            )
            &&& view.parts.import_queue is Some ==> view.parts.import_queue == Some(
                events[relay - 1]->Partial_0->ImportQueue_0,
            )
        }),
    decreases events.len(),
{
    if events.len() > 0 {
        let earlier = events.drop_last();
        lemma_components_in_start(begin, earlier);
        law_parts_are_there(begin, earlier);
        law_parts_are_there(begin, events);
        lemma_start_plan(begin.config, begin.options);
        assert forall|i: int| 0 <= i < earlier.len() implies earlier[i] == events[i] by {}
    }
}

/// What is given stays, and what the later steps make is kept.
proof fn lemma_parts_are_those_made<N: NodeTypes>(begin: StartView<N>, events: Seq<Event<N>>)
    requires
        begins(begin),
        admitted(begin, events),
        !run(begin, events).0.failed,
    ensures
        ({
            let view = run(begin, events).0;
            let parts = view.parts;
            let given = begin.parts;
            let relay = partial_plan(begin.config).len() as int;
            &&& view.config == begin.config && view.options == begin.options && view.para_id
                == begin.para_id
            &&& parts.prometheus_registry == given.prometheus_registry
            &&& events.len() <= relay + 2 ==> view.parachain_config() == begin.parachain_config()
            &&& events.len() <= relay + 2 ==> parts.rpc_ext_builder == given.rpc_ext_builder
            &&& events.len() <= relay ==> parts.polkadot_config == given.polkadot_config
            &&& events.len() <= relay ==> parts.hwbench == given.hwbench
            &&& events.len() <= relay ==> parts.collator_key is None
            &&& parts.relay_chain is Some ==> parts.relay_chain == Some(
                events[relay]->RelayChain_0->Ok_0.relay_chain,
            )
            &&& parts.collator_key is Some ==> parts.collator_key
                == events[relay]->RelayChain_0->Ok_0.collator_key
            &&& events.len() > relay + 1 ==> parts.network == Some(events[relay + 1]->network)
            &&& parts.shared_import_queue is Some ==> parts.shared_import_queue == Some(
                events[relay + 1]->import_queue,
            )
            &&& parts.network_channels is Some ==> parts.network_channels == Some(
                events[relay + 1]->network_channels,
            )
            &&& parts.network_starter is Some ==> parts.network_starter == Some(
                events[relay + 1]->network_starter,
            )
            &&& parts.consensus is Some ==> parts.consensus == Some(
                events[relay + 3]->Consensus_0,
            )
        }),
    decreases events.len(),
{
    if events.len() > 0 {
        let earlier = events.drop_last();
        lemma_parts_are_those_made(begin, earlier);
        law_parts_are_there(begin, earlier);
        law_parts_are_there(begin, events);
        lemma_start_plan(begin.config, begin.options);
        assert forall|i: int| 0 <= i < earlier.len() implies earlier[i] == events[i] by {}
    }
}

/// The action that is handed out after some outcomes, for whatever configuration.
///
/// Where there are endpoints to report to: first telemetry for these endpoints, with a buffer of 16;
/// then the full parts, with that telemetry; then its worker, spawned under its name as an ordinary
/// task of the task manager that was made, in no group; then the transaction pool; then the import
/// queue. Without endpoints there are only the full parts, the pool and the queue, without
/// telemetry. The executor has the settings of the configuration; the pool validates if the node is
/// an authority, and its tasks are essential; and every part that is handed on is the one that was
/// given or made.
pub proof fn law_partial_actions<N: NodeTypes>(
    config: NodeConfig<N::WasmMethod, N::Endpoints>,
    configuration: N::Configuration,
    outcomes: Seq<Result<PartialMade<N>, N::Error>>,
)
    requires
        partial_admitted(PartialView::<N>::begin(config, configuration), outcomes),
        !partial_run(PartialView::<N>::begin(config, configuration), outcomes).0.failed,
    ensures
        ({
            let view = partial_run(PartialView::<N>::begin(config, configuration), outcomes).0;
            let next = view.next();
            let n = outcomes.len();
            let made = |i: int| outcomes[i]->Ok_0;
            let telemetry = config.telemetry_endpoints is Some
                && !config.telemetry_endpoints->0.is_empty;
            let full: int = if telemetry { 1 } else { 0 };
            let pool: int = if telemetry { 3 } else { 1 };
            &&& telemetry && n == 0 ==> {
                &&& next is CreateTelemetry
                &&& next->buffer_size == 16
                &&& *next->endpoints == config.telemetry_endpoints->0.endpoints
            }
            &&& n == full ==> {
                &&& next is NewFullParts
                &&& *next->NewFullParts_configuration == configuration
                &&& next->executor.wasm_method == config.wasm_method
                &&& next->executor.default_heap_pages == config.default_heap_pages
                &&& next->executor.max_runtime_instances == config.max_runtime_instances
                &&& next->executor.cache_path is None
                &&& next->executor.runtime_cache_size == config.runtime_cache_size
                &&& if telemetry {
                    next->NewFullParts_telemetry == Some(&made(0)->telemetry)
                } else {
                    next->NewFullParts_telemetry is None
                }
            }
            &&& telemetry && n == 2 ==> {
                &&& next is SpawnTelemetryWorker
                &&& next->SpawnTelemetryWorker_spawner == Spawner::Ordinary
                &&& next->name@ == "telemetry"@
                &&& next->group is None
                &&& next->telemetry_worker == made(0)->telemetry_worker
                &&& *next->SpawnTelemetryWorker_task_manager == made(full)->task_manager
            }
            &&& n == pool ==> {
                &&& next is NewTransactionPool
                &&& *next->NewTransactionPool_configuration == configuration
                &&& next->is_validator <==> config.role is Authority
                &&& next->NewTransactionPool_spawner == Spawner::Essential
                &&& *next->NewTransactionPool_client == made(full)->client
                &&& *next->NewTransactionPool_task_manager == made(full)->task_manager
            }
            &&& n == pool + 1 ==> {
                &&& next is BuildImportQueue
                &&& *next->BuildImportQueue_client == made(full)->client
                &&& *next->BuildImportQueue_configuration == configuration
                &&& *next->BuildImportQueue_task_manager == made(full)->task_manager
                &&& if telemetry {
                    next->BuildImportQueue_telemetry == Some(&made(0)->telemetry)
                } else {
                    next->BuildImportQueue_telemetry is None
                }
            }
            &&& view.running() <==> n < pool + 2
            &&& view.ready() <==> n == pool + 2
            &&& n == pool + 2 ==> {
                let components = view.components();
                &&& components.client == made(full)->client
                &&& components.backend == made(full)->backend
                &&& components.keystore_container == made(full)->keystore
                &&& components.task_manager == made(full)->task_manager
                &&& components.transaction_pool == made(pool)->TransactionPool_0
                &&& components.import_queue == made(pool + 1)->ImportQueue_0
                &&& if telemetry {
                    &&& components.other.0 == Some(made(0)->telemetry)
                    &&& components.other.1 == Some(made(2)->TelemetryWorkerHandle_0)
                } else {
                    components.other.0 is None && components.other.1 is None
                }
            }
        }),
{
    law_components_are_those_made(config, configuration, outcomes);
}

/// What the events of a start tell of the making of its components.
pub open spec fn made_by<N: NodeTypes>(events: Seq<Event<N>>) -> Seq<
    Result<PartialMade<N>, N::Error>,
> {
    Seq::new(events.len(), |i: int| Ok(events[i]->Partial_0))
}

/// While the components are being made, a start goes as the making of the components goes.
proof fn lemma_start_follows_partial<N: NodeTypes>(begin: StartView<N>, events: Seq<Event<N>>)
    requires
        begins(begin),
        admitted(begin, events),
        !run(begin, events).0.failed,
        events.len() < partial_plan(begin.config).len(),
    ensures
        partial_admitted(begin.partial->0, made_by(events)),
        run(begin, events).0.partial == Some(partial_run(begin.partial->0, made_by(events)).0),
    decreases events.len(),
{
    if events.len() > 0 {
        let earlier = events.drop_last();
        lemma_start_follows_partial(begin, earlier);
        law_parts_are_there(begin, earlier);
        law_parts_are_there(begin, events);
        lemma_start_plan(begin.config, begin.options);
        assert(made_by(events).drop_last() =~= made_by(earlier));
    }
}

/// Where the task manager, the telemetry and the key stand after some events, told by the events
/// themselves.
proof fn lemma_returned_parts<N: NodeTypes>(begin: StartView<N>, events: Seq<Event<N>>)
    requires
        begins(begin),
        admitted(begin, events),
        !run(begin, events).0.failed,
    ensures
        ({
            let parts = run(begin, events).0.parts;
            let n = events.len();
            let relay = partial_plan(begin.config).len() as int;
            let authority = begin.config.role is Authority;
            let parachain = relay + (if authority { 4int } else { 3int });
            &&& relay < n <= relay + 2 ==> parts.task_manager == Some(
                events[relay]->RelayChain_0->Ok_0.task_manager,
            )
            &&& relay + 2 < n <= parachain ==> parts.task_manager == Some(
                events[relay + 2]->Tasks_task_manager,
            )
            &&& n > parachain ==> parts.task_manager == Some(
                if authority {
                    events[parachain]->Collator_task_manager
                } else {
                    events[parachain]->FullNode_task_manager
                },
            )
            &&& n > relay + 2 ==> parts.telemetry == events[relay + 2]->Tasks_telemetry
            &&& relay < n <= relay + 4 ==> parts.collator_key == (
            if begin.options.relay_chain_rpc_url is Some {
                None
            } else {
                events[relay]->RelayChain_0->Ok_0.collator_key
            })
        }),
    decreases events.len(),
{
    if events.len() > 0 {
        let earlier = events.drop_last();
        lemma_returned_parts(begin, earlier);
        law_parts_are_there(begin, earlier);
        law_parts_are_there(begin, events);
        lemma_start_plan(begin.config, begin.options);
        assert forall|i: int| 0 <= i < earlier.len() implies earlier[i] == events[i] by {}
    }
}

/// Where the parts from the components stand while the components are in place.
proof fn lemma_taken_over_parts<N: NodeTypes>(begin: StartView<N>, events: Seq<Event<N>>)
    requires
        begins(begin),
        admitted(begin, events),
        !run(begin, events).0.failed,
    ensures
        ({
            let parts = run(begin, events).0.parts;
            let n = events.len();
            let relay = partial_plan(begin.config).len() as int;
            let full = full_parts_index(begin.config);
            &&& n >= relay ==> parts.client == Some(events[full]->Partial_0->client)
            &&& n == relay ==> parts.task_manager == Some(events[full]->Partial_0->task_manager)
            &&& n == relay && !begin.config.reports() ==> parts.telemetry_worker_handle is None
            &&& relay <= n <= relay + 2 ==> parts.telemetry == (if begin.config.reports() {
                Some(events[0]->Partial_0->telemetry)
            } else {
                None
            })
        }),
    decreases events.len(),
{
    if events.len() > 0 {
        let earlier = events.drop_last();
        lemma_taken_over_parts(begin, earlier);
        law_parts_are_there(begin, earlier);
        law_parts_are_there(begin, events);
        lemma_start_plan(begin.config, begin.options);
        assert forall|i: int| 0 <= i < earlier.len() implies earlier[i] == events[i] by {}
        if events.len() == partial_plan(begin.config).len() {
            lemma_start_follows_partial(begin, earlier);
            law_components_are_those_made(
                begin.config,
                begin.partial->0.parts.configuration->0,
                made_by(earlier),
            );
        }
    }
}

/// While the components are made, the start of a node hands out just the actions by which a
/// command that needs no more would make them, from what the earlier of these have made.
pub proof fn law_start_makes_components<N: NodeTypes>(
    config: NodeConfig<N::WasmMethod, N::Endpoints>,
    parachain_config: N::Configuration,
    polkadot_config: N::Configuration,
    collator_options: CollatorOptions<N::Url>,
    id: u32,
    hwbench: Option<N::HwBench>,
    rpc_ext_builder: N::RpcExtBuilder,
    prometheus_registry: Option<N::Registry>,
    events: Seq<Event<N>>,
)
    requires
        ({
            let begin = StartView::<N>::begin(
                config,
                parachain_config,
                polkadot_config,
                collator_options,
                id,
                hwbench,
                rpc_ext_builder,
                prometheus_registry,
            );
            admitted(begin, events) && !run(begin, events).0.failed
        }),
        events.len() < partial_plan(config).len(),
    ensures
        ({
            let begin = StartView::<N>::begin(
                config,
                parachain_config,
                polkadot_config,
                collator_options,
                id,
                hwbench,
                rpc_ext_builder,
                prometheus_registry,
            );
            let next = run(begin, events).0.next();
            let partial = PartialView::<N>::begin(config, parachain_config);
            let made = made_by(events);
            &&& next is Partial
            &&& partial_admitted(partial, made)
            &&& next->Partial_0 == partial_run(partial, made).0.next()
            &&& !partial_run(partial, made).0.failed
        }),
{
    let begin = StartView::<N>::begin(
        config,
        parachain_config,
        polkadot_config,
        collator_options,
        id,
        hwbench,
        rpc_ext_builder,
        prometheus_registry,
    );
    lemma_start_follows_partial(begin, events);
    law_parts_are_there(begin, events);
    lemma_start_plan(config, collator_options);
}

/// The action that is handed out after some events, behind the making of the components, and what
/// a started node leaves, for whatever the start was given.
///
/// Every action is for the parachain with the id that was given, no more and no less. It has the
/// settings that the configuration and the options have, warp sync is off, and a slot of the relay
/// chain takes 6 s. Every part that it takes is the one that was given, or that the event of the
/// step that makes it has brought; the task manager and the telemetry are as the last step that
/// had them gave them back. The task manager and the client are what is left in the end.
pub proof fn law_start_actions<N: NodeTypes>(
    config: NodeConfig<N::WasmMethod, N::Endpoints>,
    parachain_config: N::Configuration,
    polkadot_config: N::Configuration,
    collator_options: CollatorOptions<N::Url>,
    id: u32,
    hwbench: Option<N::HwBench>,
    rpc_ext_builder: N::RpcExtBuilder,
    prometheus_registry: Option<N::Registry>,
    events: Seq<Event<N>>,
)
    requires
        ({
            let begin = StartView::<N>::begin(
                config,
                parachain_config,
                polkadot_config,
                collator_options,
                id,
                hwbench,
                rpc_ext_builder,
                prometheus_registry,
            );
            admitted(begin, events) && !run(begin, events).0.failed
        }),
    ensures
        ({
            let begin = StartView::<N>::begin(
                config,
                parachain_config,
                polkadot_config,
                collator_options,
                id,
                hwbench,
                rpc_ext_builder,
                prometheus_registry,
            );
            let view = run(begin, events).0;
            let next = view.next();
            let n = events.len();
            let reports = config.telemetry_endpoints is Some
                && !config.telemetry_endpoints->0.is_empty;
            let authority = config.role is Authority;
            let full: int = if reports { 1 } else { 0 };
            let pool: int = if reports { 3 } else { 1 };
            let relay: int = if reports { 5 } else { 3 };
            let last: int = if authority { relay + 5 } else { relay + 4 };
            let client = events[full]->Partial_0->client;
            let backend = events[full]->Partial_0->backend;
            let keystore = events[full]->Partial_0->keystore;
            let transaction_pool = events[pool]->Partial_0->TransactionPool_0;
            let got = events[relay]->RelayChain_0->Ok_0;
            let network = events[relay + 1]->network;
            &&& n < relay ==> next is Partial
            &&& n == relay ==> match collator_options.relay_chain_rpc_url {
                Some(url) => {
                    &&& next is ConnectRelayChain
                    &&& *next->url == url
                    &&& next->ConnectRelayChain_task_manager
                        == events[full]->Partial_0->task_manager
                },
                None => {
                    &&& next is RunRelayChain
                    &&& next->polkadot_config == polkadot_config
                    &&& *next->RunRelayChain_parachain_config == parachain_config
                    &&& next->telemetry_worker_handle == (if reports {
                        Some(events[2]->Partial_0->TelemetryWorkerHandle_0)
                    } else {
                        None
                    })
                    &&& next->RunRelayChain_task_manager == events[full]->Partial_0->task_manager
                    &&& next->hwbench == hwbench
                },
            }
            &&& n == relay + 1 ==> {
                &&& next is BuildNetwork
                &&& next->BuildNetwork_para_id == id
                &&& !next->warp_sync
                &&& *next->BuildNetwork_parachain_config == parachain_config
                &&& *next->BuildNetwork_client == client
                &&& *next->BuildNetwork_transaction_pool == transaction_pool
                &&& *next->BuildNetwork_task_manager == got.task_manager
                &&& next->BuildNetwork_import_queue == events[pool + 1]->Partial_0->ImportQueue_0
                &&& *next->BuildNetwork_relay_chain == got.relay_chain
            }
            &&& n == relay + 2 ==> {
                &&& next is SpawnTasks
                &&& next->rpc_ext_builder == rpc_ext_builder
                &&& *next->SpawnTasks_client == client
                &&& *next->SpawnTasks_transaction_pool == transaction_pool
                &&& next->SpawnTasks_task_manager == got.task_manager
                &&& next->SpawnTasks_parachain_config == parachain_config
                &&& *next->SpawnTasks_keystore == keystore
                &&& *next->SpawnTasks_backend == backend
                &&& *next->SpawnTasks_network == network
                &&& next->network_channels == events[relay + 1]->network_channels
                &&& next->SpawnTasks_telemetry == (if reports {
                    Some(events[0]->Partial_0->telemetry)
                } else {
                    None
                })
            }
            &&& authority && n == relay + 3 ==> {
                &&& next is BuildConsensus
                &&& next->BuildConsensus_para_id == id
                &&& *next->BuildConsensus_client == client
                &&& match prometheus_registry {
                    Some(registry) => next->prometheus_registry == Some(&registry),
                    None => next->prometheus_registry is None,
                }
                &&& match events[relay + 2]->Tasks_telemetry {
                    Some(telemetry) => next->BuildConsensus_telemetry == Some(&telemetry),
                    None => next->BuildConsensus_telemetry is None,
                }
                &&& *next->BuildConsensus_task_manager == events[relay + 2]->Tasks_task_manager
                &&& *next->BuildConsensus_relay_chain == got.relay_chain
                &&& *next->BuildConsensus_transaction_pool == transaction_pool
                &&& *next->BuildConsensus_network == network
                &&& *next->BuildConsensus_keystore == keystore
                &&& next->force_authoring == config.force_authoring
            }
            &&& authority && n == relay + 4 ==> {
                &&& next is StartCollator
                &&& next->StartCollator_para_id == id
                &&& *next->StartCollator_client == client
                &&& *next->StartCollator_network == network
                &&& next->StartCollator_task_manager == events[relay + 2]->Tasks_task_manager
                &&& next->StartCollator_relay_chain == got.relay_chain
                &&& next->consensus == events[relay + 3]->Consensus_0
                &&& next->StartCollator_import_queue == events[relay + 1]->import_queue
                &&& collator_options.relay_chain_rpc_url is None
                &&& Some(next->collator_key) == got.collator_key
                &&& next->StartCollator_relay_chain_slot_duration_secs == 6
            }
            &&& !authority && n == relay + 3 ==> {
                &&& next is StartFullNode
                &&& next->StartFullNode_para_id == id
                &&& *next->StartFullNode_client == client
                &&& *next->StartFullNode_network == network
                &&& next->StartFullNode_task_manager == events[relay + 2]->Tasks_task_manager
                &&& next->StartFullNode_relay_chain == got.relay_chain
                &&& next->StartFullNode_import_queue == events[relay + 1]->import_queue
                &&& *next->collator_options == collator_options
                &&& next->StartFullNode_relay_chain_slot_duration_secs == 6
            }
            &&& n == last ==> {
                &&& next is StartNetwork
                &&& next->network_starter == events[relay + 1]->network_starter
            }
            &&& view.running() <==> n <= last
            &&& view.started() <==> n == last + 1
            &&& n == last + 1 ==> {
                &&& view.parts.client == Some(client)
                &&& view.parts.task_manager == Some(
                    if authority {
                        events[relay + 4]->Collator_task_manager
                    } else {
                        events[relay + 3]->FullNode_task_manager
                    },
                )
            }
        }),
{
    let begin = StartView::<N>::begin(
        config,
        parachain_config,
        polkadot_config,
        collator_options,
        id,
        hwbench,
        rpc_ext_builder,
        prometheus_registry,
    );
    law_parts_are_there(begin, events);
    law_parts_are_those_made(begin, events);
    lemma_taken_over_parts(begin, events);
    lemma_returned_parts(begin, events);
    lemma_start_plan(config, collator_options);
}

} // verus!
