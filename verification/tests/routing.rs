use component_routing::decl::{ComponentDecl, ExposeDecl, ExposeTarget};
use component_routing::hooks::{
    CapabilitySource, Event, EventPayload, FrameworkCapability, HookRegistry, Hooks, ModelError,
};

#[test]
fn model_error_constructors() {
    let moniker = abs(&["a:0"]);
    let err = ModelError::capability_discovery_error(moniker.clone());
    assert!(matches!(err, ModelError::CapabilityDiscoveryError { .. }));
    let err = ModelError::capability_provider_error("stream adaptation failed".to_string());
    match err {
        ModelError::CapabilityProviderError { message } => {
            assert_eq!(message, "stream adaptation failed")
        }
        other => panic!("unexpected error: {:?}", other),
    }
}
use component_routing::moniker::AbsoluteMoniker;
use component_routing::work_scheduler::{
    control_servicing_step, worker_servicing_step, work_scheduler_capability_path,
    work_scheduler_control_capability_path, worker_capability_path, CapabilityProvider,
    ControlStreamEvent, SchedulerAction, ServicingStep, ServicingTask, WorkRequest, WorkScheduler,
    WorkSchedulerCapabilityProvider, WorkSchedulerControlCapabilityProvider,
    WorkSchedulerControlRequest, WorkSchedulerRequest, WorkerStreamEvent,
};

fn abs(segments: &[&str]) -> AbsoluteMoniker {
    AbsoluteMoniker::new(segments.iter().map(|s| s.to_string()).collect())
}

fn route_control_event(target: AbsoluteMoniker) -> Event {
    Event {
        target_moniker: target,
        payload: EventPayload::RouteCapability {
            source: CapabilitySource::Framework {
                capability: FrameworkCapability::ServiceProtocol(
                    work_scheduler_control_capability_path(),
                ),
                scope_moniker: None,
            },
        },
    }
}

fn route_worker_event(target: AbsoluteMoniker, scope: AbsoluteMoniker) -> Event {
    Event {
        target_moniker: target,
        payload: EventPayload::RouteCapability {
            source: CapabilitySource::Framework {
                capability: FrameworkCapability::ServiceProtocol(work_scheduler_capability_path()),
                scope_moniker: Some(scope),
            },
        },
    }
}

fn resolve_event(target: AbsoluteMoniker, exposes_worker: bool) -> Event {
    let exposes = if exposes_worker {
        vec![ExposeDecl { target: ExposeTarget::Framework, target_path: worker_capability_path() }]
    } else {
        vec![ExposeDecl { target: ExposeTarget::Realm, target_path: worker_capability_path() }]
    };
    Event {
        target_moniker: target,
        payload: EventPayload::ResolveInstance { decl: ComponentDecl::new(exposes) },
    }
}

/// Installs `count` schedulers on a fresh bus and registry, in order.
fn build_bus(count: usize) -> (Hooks, HookRegistry, Vec<usize>) {
    let mut bus = Hooks::new();
    let mut registry = HookRegistry::new();
    let mut ids = Vec::new();
    for _ in 0..count {
        let id = registry.register(WorkScheduler::new());
        bus.install(WorkScheduler::hooks(id));
        ids.push(id);
    }
    (bus, registry, ids)
}

#[test]
fn first_responder_wins() {
    // Both hooks are eligible for the control capability; only the first
    // in registration order supplies the provider.
    let (bus, mut registry, ids) = build_bus(2);
    let mut slot: Option<CapabilityProvider> = None;
    let event = route_control_event(abs(&["a:0"]));
    bus.dispatch(&mut registry, &event, &mut slot).unwrap();
    let provider = slot.expect("no provider routed");
    match provider.open(0, 0, String::new()) {
        ServicingTask::Control { work_scheduler } => assert_eq!(work_scheduler, ids[0]),
        other => panic!("unexpected task: {:?}", other),
    }
}

#[test]
fn later_hooks_leave_a_filled_slot_untouched() {
    let (bus, mut registry, ids) = build_bus(3);
    // The slot arrives pre-filled by an earlier routing stage.
    let mut slot: Option<CapabilityProvider> = Some(CapabilityProvider::Control(
        WorkSchedulerControlCapabilityProvider::new(ids[2]),
    ));
    let event = route_control_event(abs(&["a:0"]));
    bus.dispatch(&mut registry, &event, &mut slot).unwrap();
    match slot.expect("slot emptied").open(0, 0, String::new()) {
        ServicingTask::Control { work_scheduler } => assert_eq!(work_scheduler, ids[2]),
        other => panic!("unexpected task: {:?}", other),
    }
}

#[test]
fn destroyed_subsystem_is_silently_skipped() {
    let (bus, mut registry, ids) = build_bus(2);
    registry.destroy(ids[0]);
    let mut slot: Option<CapabilityProvider> = None;
    let event = route_control_event(abs(&["a:0"]));
    // No error; the second, live subsystem answers instead.
    bus.dispatch(&mut registry, &event, &mut slot).unwrap();
    match slot.expect("no provider routed").open(0, 0, String::new()) {
        ServicingTask::Control { work_scheduler } => assert_eq!(work_scheduler, ids[1]),
        other => panic!("unexpected task: {:?}", other),
    }

    // An event nobody is left to handle passes through without error.
    registry.destroy(ids[1]);
    let mut slot: Option<CapabilityProvider> = None;
    let event = route_control_event(abs(&["a:0"]));
    bus.dispatch(&mut registry, &event, &mut slot).unwrap();
    assert!(slot.is_none());
}

#[test]
fn unentitled_worker_route_fails_with_discovery_error() {
    let (bus, mut registry, _ids) = build_bus(1);
    let scope = abs(&["a:0", "b:1"]);
    let mut slot: Option<CapabilityProvider> = None;
    let event = route_worker_event(scope.clone(), scope.clone());
    let err = bus.dispatch(&mut registry, &event, &mut slot).unwrap_err();
    match err {
        ModelError::CapabilityDiscoveryError { moniker } => assert_eq!(moniker, scope),
        other => panic!("unexpected error: {:?}", other),
    }
    assert!(slot.is_none());
}

#[test]
fn resolve_then_route_supplies_a_worker_provider() {
    let (bus, mut registry, ids) = build_bus(1);
    let scope = abs(&["a:0", "b:1"]);

    // The instance resolves first, with a manifest exposing the worker
    // protocol to the framework; that makes it an eligible worker.
    let mut unused: Option<CapabilityProvider> = None;
    bus.dispatch(&mut registry, &resolve_event(scope.clone(), true), &mut unused).unwrap();
    assert!(registry
        .get(ids[0])
        .expect("scheduler destroyed")
        .verify_worker_exposed_to_framework(&scope));

    // Routing the scoped worker capability now succeeds.
    let mut slot: Option<CapabilityProvider> = None;
    bus.dispatch(&mut registry, &route_worker_event(scope.clone(), scope.clone()), &mut slot)
        .unwrap();
    match slot.expect("no provider routed").open(0, 0, String::new()) {
        ServicingTask::Worker { work_scheduler, scope_moniker } => {
            assert_eq!(work_scheduler, ids[0]);
            assert_eq!(scope_moniker, scope);
        }
        other => panic!("unexpected task: {:?}", other),
    }
}

#[test]
fn exposing_elsewhere_than_framework_gives_no_entitlement() {
    let (bus, mut registry, ids) = build_bus(1);
    let scope = abs(&["a:0"]);
    let mut unused: Option<CapabilityProvider> = None;
    bus.dispatch(&mut registry, &resolve_event(scope.clone(), false), &mut unused).unwrap();
    assert!(!registry
        .get(ids[0])
        .expect("scheduler destroyed")
        .verify_worker_exposed_to_framework(&scope));
    let mut slot: Option<CapabilityProvider> = None;
    let err =
        bus.dispatch(&mut registry, &route_worker_event(scope.clone(), scope), &mut slot)
            .unwrap_err();
    assert!(matches!(err, ModelError::CapabilityDiscoveryError { .. }));
}

#[test]
fn control_servicing_loop_decisions() {
    match control_servicing_step(ControlStreamEvent::Request {
        request: WorkSchedulerControlRequest::GetBatchPeriod,
    }) {
        ServicingStep::Continue { action: SchedulerAction::GetBatchPeriod } => {}
        other => panic!("unexpected step: {:?}", other),
    }
    match control_servicing_step(ControlStreamEvent::Request {
        request: WorkSchedulerControlRequest::SetBatchPeriod { batch_period: 500 },
    }) {
        ServicingStep::Continue { action: SchedulerAction::SetBatchPeriod { batch_period } } => {
            assert_eq!(batch_period, 500)
        }
        other => panic!("unexpected step: {:?}", other),
    }
    match control_servicing_step(ControlStreamEvent::Closed) {
        ServicingStep::Stop { warning: None } => {}
        other => panic!("unexpected step: {:?}", other),
    }
    match control_servicing_step(ControlStreamEvent::TransportError {
        message: "channel reset".to_string(),
    }) {
        ServicingStep::Stop { warning: Some(w) } => assert_eq!(w, "channel reset"),
        other => panic!("unexpected step: {:?}", other),
    }
}

#[test]
fn worker_servicing_loop_attributes_work_to_its_scope() {
    let scope = abs(&["a:0", "b:1"]);
    match worker_servicing_step(
        &scope,
        WorkerStreamEvent::Request {
            request: WorkSchedulerRequest::ScheduleWork {
                work_id: "backup".to_string(),
                work_request: WorkRequest { start: 1000, period: Some(60) },
            },
        },
    ) {
        ServicingStep::Continue {
            action: SchedulerAction::ScheduleWork { scope_moniker, work_id, work_request },
        } => {
            assert_eq!(scope_moniker, scope);
            assert_eq!(work_id, "backup");
            assert_eq!(work_request, WorkRequest { start: 1000, period: Some(60) });
        }
        other => panic!("unexpected step: {:?}", other),
    }
    match worker_servicing_step(
        &scope,
        WorkerStreamEvent::Request {
            request: WorkSchedulerRequest::CancelWork { work_id: "backup".to_string() },
        },
    ) {
        ServicingStep::Continue { action: SchedulerAction::CancelWork { scope_moniker, work_id } } => {
            assert_eq!(scope_moniker, scope);
            assert_eq!(work_id, "backup");
        }
        other => panic!("unexpected step: {:?}", other),
    }
    match worker_servicing_step(&scope, WorkerStreamEvent::Closed) {
        ServicingStep::Stop { warning: None } => {}
        other => panic!("unexpected step: {:?}", other),
    }
}

#[test]
fn provider_open_yields_the_matching_task() {
    let scope = abs(&["a:0"]);
    let control = WorkSchedulerControlCapabilityProvider::new(7);
    match control.open(0, 0, String::new()) {
        ServicingTask::Control { work_scheduler } => assert_eq!(work_scheduler, 7),
        other => panic!("unexpected task: {:?}", other),
    }
    let worker = WorkSchedulerCapabilityProvider::new(scope.clone(), 9);
    match worker.open(0, 0, String::new()) {
        ServicingTask::Worker { work_scheduler, scope_moniker } => {
            assert_eq!(work_scheduler, 9);
            assert_eq!(scope_moniker, scope);
        }
        other => panic!("unexpected task: {:?}", other),
    }
}
