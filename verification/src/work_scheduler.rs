//! The work-scheduling capability adapter: a hook implementor that watches
//! `ResolveInstance` events to learn which instances are entitled to the
//! scoped worker capability, answers `RouteCapability` events for its two
//! capability paths, and supplies the two capability providers whose
//! request-servicing loops forward operations to the external scheduler.

use vstd::prelude::*;
use vstd::string::StringExecFns;
use crate::decl::ComponentDecl;
use crate::decl::spec_exposes_to_framework;
use crate::hooks::Event;
use crate::hooks::EventPayload;
use crate::hooks::EventType;
use crate::hooks::CapabilitySource;
use crate::hooks::FrameworkCapability;
use crate::hooks::HooksRegistration;
use crate::hooks::ModelError;
use crate::hooks::ModelErrorView;
use crate::hooks::WeakHook;
use crate::moniker::AbsoluteMoniker;
use crate::storage::CapabilityPath;

verus! {

/// The path under which the scoped worker-facing scheduler protocol is
/// offered.
pub open spec fn work_scheduler_capability_path_view() -> Seq<char> {
    "/svc/fuchsia.sys2.WorkScheduler"@
}

/// The path under which the global scheduler-control protocol is offered.
pub open spec fn work_scheduler_control_capability_path_view() -> Seq<char> {
    "/svc/fuchsia.sys2.WorkSchedulerControl"@
}

/// The path under which an entitled instance exposes its worker protocol to
/// the framework.
pub open spec fn worker_capability_path_view() -> Seq<char> {
    "/svc/fuchsia.sys2.Worker"@
}

/// The capability path of the scoped worker-facing scheduler protocol.
pub fn work_scheduler_capability_path() -> (r: CapabilityPath)
    ensures
        r@ == work_scheduler_capability_path_view(),
{
    CapabilityPath::new(String::from_str("/svc/fuchsia.sys2.WorkScheduler"))
}

/// The capability path of the global scheduler-control protocol.
pub fn work_scheduler_control_capability_path() -> (r: CapabilityPath)
    ensures
        r@ == work_scheduler_control_capability_path_view(),
{
    CapabilityPath::new(String::from_str("/svc/fuchsia.sys2.WorkSchedulerControl"))
}

/// The capability path an entitled instance exposes to the framework.
pub fn worker_capability_path() -> (r: CapabilityPath)
    ensures
        r@ == worker_capability_path_view(),
{
    CapabilityPath::new(String::from_str("/svc/fuchsia.sys2.Worker"))
}

/// The spec-level value of a capability provider.
pub enum CapabilityProviderView {
    Control { work_scheduler: int },
    Worker { work_scheduler: int, scope_moniker: Seq<Seq<char>> },
}

/// A capability provider for the global scheduler-control protocol, bound
/// to one scheduler subsystem (named by its registry slot).
#[derive(Debug)]
pub struct WorkSchedulerControlCapabilityProvider {
    work_scheduler: usize,
}

impl View for WorkSchedulerControlCapabilityProvider {
    type V = CapabilityProviderView;

    closed spec fn view(&self) -> CapabilityProviderView {
        CapabilityProviderView::Control { work_scheduler: self.work_scheduler as int }
    }
}

impl WorkSchedulerControlCapabilityProvider {
    pub fn new(work_scheduler: usize) -> (r: WorkSchedulerControlCapabilityProvider)
        ensures
            r@ == (CapabilityProviderView::Control { work_scheduler: work_scheduler as int }),
    {
        WorkSchedulerControlCapabilityProvider { work_scheduler }
    }

    /// Consumes the provider and yields the servicing task the runtime
    /// spawns for the newly opened connection. The provider is one-shot:
    /// taking `self` by value makes a second use impossible.
    pub fn open(self, flags: u32, open_mode: u32, relative_path: String) -> (t: ServicingTask)
        ensures
            t@ == (ServicingTaskView::Control { work_scheduler: self@->Control_work_scheduler }),
    {
        let _ = flags;
        let _ = open_mode;
        let _ = relative_path;
        ServicingTask::Control { work_scheduler: self.work_scheduler }
    }
}

/// A capability provider for the scoped worker-facing scheduler protocol,
/// bound to one scheduler subsystem and one component instance: every work
/// item scheduled through it is attributed to that instance.
#[derive(Debug)]
pub struct WorkSchedulerCapabilityProvider {
    scope_moniker: AbsoluteMoniker,
    work_scheduler: usize,
}

impl View for WorkSchedulerCapabilityProvider {
    type V = CapabilityProviderView;

    closed spec fn view(&self) -> CapabilityProviderView {
        CapabilityProviderView::Worker {
            work_scheduler: self.work_scheduler as int,
            scope_moniker: self.scope_moniker@,
        }
    }
}

impl WorkSchedulerCapabilityProvider {
    pub fn new(scope_moniker: AbsoluteMoniker, work_scheduler: usize) -> (r:
        WorkSchedulerCapabilityProvider)
        ensures
            r@ == (CapabilityProviderView::Worker {
                work_scheduler: work_scheduler as int,
                scope_moniker: scope_moniker@,
            }),
    {
        WorkSchedulerCapabilityProvider { scope_moniker, work_scheduler }
    }

    /// Consumes the provider and yields the servicing task the runtime
    /// spawns for the newly opened connection.
    pub fn open(self, flags: u32, open_mode: u32, relative_path: String) -> (t: ServicingTask)
        ensures
            t@ == (ServicingTaskView::Worker {
                work_scheduler: self@->Worker_work_scheduler,
                scope_moniker: self@->Worker_scope_moniker,
            }),
    {
        let _ = flags;
        let _ = open_mode;
        let _ = relative_path;
        ServicingTask::Worker {
            work_scheduler: self.work_scheduler,
            scope_moniker: self.scope_moniker,
        }
    }
}

/// A polymorphic capability provider: the closed set of providers this
/// routing layer can place in the shared slot of a `RouteCapability`
/// dispatch. A provider is exclusive and one-shot: `open` consumes it.
#[derive(Debug)]
pub enum CapabilityProvider {
    Control(WorkSchedulerControlCapabilityProvider),
    Worker(WorkSchedulerCapabilityProvider),
}

impl View for CapabilityProvider {
    type V = CapabilityProviderView;

    open spec fn view(&self) -> CapabilityProviderView {
        match self {
            CapabilityProvider::Control(p) => p@,
            CapabilityProvider::Worker(p) => p@,
        }
    }
}

/// The spec-level value of a servicing task.
pub enum ServicingTaskView {
    Control { work_scheduler: int },
    Worker { work_scheduler: int, scope_moniker: Seq<Seq<char>> },
}

/// A request-servicing task to be spawned for an opened connection: which
/// protocol it serves, which scheduler it is bound to, and (for the worker
/// protocol) which instance its work is attributed to. The task is detached:
/// nothing waits on it, and it stops only when its peer closes the
/// connection or the transport fails.
#[derive(Debug)]
pub enum ServicingTask {
    Control { work_scheduler: usize },
    Worker { work_scheduler: usize, scope_moniker: AbsoluteMoniker },
}

impl View for ServicingTask {
    type V = ServicingTaskView;

    open spec fn view(&self) -> ServicingTaskView {
        match self {
            ServicingTask::Control { work_scheduler } => ServicingTaskView::Control {
                work_scheduler: *work_scheduler as int,
            },
            ServicingTask::Worker { work_scheduler, scope_moniker } => ServicingTaskView::Worker {
                work_scheduler: *work_scheduler as int,
                scope_moniker: scope_moniker@,
            },
        }
    }
}

impl CapabilityProvider {
    /// Consumes the provider and yields the servicing task for a newly
    /// opened connection, the entry point the runtime calls once routing
    /// has produced a provider. `flags`, `open_mode` and `relative_path`
    /// accompany the runtime's open request; these providers serve a single
    /// protocol and do not interpret them.
    pub fn open(self, flags: u32, open_mode: u32, relative_path: String) -> (t: ServicingTask)
        ensures
            match self@ {
                CapabilityProviderView::Control { work_scheduler } => t@
                    == (ServicingTaskView::Control { work_scheduler }),
                CapabilityProviderView::Worker { work_scheduler, scope_moniker } => t@
                    == (ServicingTaskView::Worker { work_scheduler, scope_moniker }),
            },
    {
        match self {
            CapabilityProvider::Control(p) => p.open(flags, open_mode, relative_path),
            CapabilityProvider::Worker(p) => p.open(flags, open_mode, relative_path),
        }
    }
}

/// The spec-level value of an optional provider slot.
pub open spec fn opt_provider_view(o: Option<CapabilityProvider>) -> Option<
    CapabilityProviderView,
> {
    match o {
        Option::None => Option::None,
        Option::Some(p) => Option::Some(p@),
    }
}

/// Whether `m` is among the registered worker monikers.
pub open spec fn workers_contain(workers: Seq<Seq<Seq<char>>>, m: Seq<Seq<char>>) -> bool {
    exists|i: int| 0 <= i < workers.len() && workers[i] == m
}

/// The worker set after learning that the instance at `target` resolved
/// with manifest `decl`: the moniker is appended when the manifest exposes
/// the worker protocol to the framework and the moniker is new.
pub open spec fn add_worker_spec(
    workers: Seq<Seq<Seq<char>>>,
    target: Seq<Seq<char>>,
    decl: Seq<crate::decl::ExposeDeclView>,
) -> Seq<Seq<Seq<char>>> {
    if spec_exposes_to_framework(decl, worker_capability_path_view()) && !workers_contain(
        workers,
        target,
    ) {
        workers.push(target)
    } else {
        workers
    }
}

/// One hook step: the scheduler's state and the provider slot after it
/// handled an event, and whether it failed the dispatch.
pub struct HookStepView {
    pub workers: Seq<Seq<Seq<char>>>,
    pub slot: Option<CapabilityProviderView>,
    pub result: Result<(), ModelErrorView>,
}

/// What a scheduler at registry slot `id` does with an event, given the
/// current provider slot: the functional model of `WorkScheduler::on`.
pub open spec fn scheduler_on_spec(
    workers: Seq<Seq<Seq<char>>>,
    id: int,
    event: crate::hooks::EventView,
    slot: Option<CapabilityProviderView>,
) -> HookStepView {
    match event.payload {
        crate::hooks::EventPayloadView::ResolveInstance { decl } => HookStepView {
            workers: add_worker_spec(workers, event.target_moniker, decl),
            slot,
            result: Result::Ok(()),
        },
        crate::hooks::EventPayloadView::RouteCapability { capability, scope_moniker } => match scope_moniker {
            Option::None => {
                if slot is None && capability == work_scheduler_control_capability_path_view() {
                    HookStepView {
                        workers,
                        slot: Option::Some(
                            CapabilityProviderView::Control { work_scheduler: id },
                        ),
                        result: Result::Ok(()),
                    }
                } else {
                    HookStepView { workers, slot, result: Result::Ok(()) }
                }
            },
            Option::Some(scope) => {
                if slot is None && capability == work_scheduler_capability_path_view() {
                    if !workers_contain(workers, scope) {
                        HookStepView {
                            workers,
                            slot,
                            result: Result::Err(
                                ModelErrorView::CapabilityDiscovery { moniker: scope },
                            ),
                        }
                    } else {
                        HookStepView {
                            workers,
                            slot: Option::Some(
                                CapabilityProviderView::Worker {
                                    work_scheduler: id,
                                    scope_moniker: scope,
                                },
                            ),
                            result: Result::Ok(()),
                        }
                    }
                } else {
                    HookStepView { workers, slot, result: Result::Ok(()) }
                }
            },
        },
    }
}

/// A request arriving on a scheduler-control connection.
#[derive(Clone, Copy, Debug, PartialEq, Eq, Structural)]
pub enum WorkSchedulerControlRequest {
    GetBatchPeriod,
    SetBatchPeriod { batch_period: i64 },
}

/// A work request: when the work item should first run (a monotonic
/// deadline) and, for repeating work, its period.
#[derive(Clone, Copy, Debug, PartialEq, Eq, Structural)]
pub struct WorkRequest {
    pub start: i64,
    pub period: Option<i64>,
}

/// A request arriving on a worker-facing scheduler connection.
#[derive(Debug)]
pub enum WorkSchedulerRequest {
    ScheduleWork { work_id: String, work_request: WorkRequest },
    CancelWork { work_id: String },
}

/// What a servicing loop sees next on its connection: a request, the peer
/// closing its end, or a transport failure.
#[derive(Debug)]
pub enum ControlStreamEvent {
    Request { request: WorkSchedulerControlRequest },
    Closed,
    TransportError { message: String },
}

/// What a worker servicing loop sees next on its connection.
#[derive(Debug)]
pub enum WorkerStreamEvent {
    Request { request: WorkSchedulerRequest },
    Closed,
    TransportError { message: String },
}

/// One call into the external scheduler, made on behalf of a servicing
/// loop; the scheduler's reply is sent back to the requesting peer as the
/// response.
#[derive(Debug)]
pub enum SchedulerAction {
    GetBatchPeriod,
    SetBatchPeriod { batch_period: i64 },
    ScheduleWork { scope_moniker: AbsoluteMoniker, work_id: String, work_request: WorkRequest },
    CancelWork { scope_moniker: AbsoluteMoniker, work_id: String },
}

/// What a servicing loop does next: perform a scheduler action and answer
/// the peer, or stop. A loop stops silently when the peer closed the
/// connection, and stops with a warning to log on a transport failure;
/// either way only this one task ends — other connections and other
/// providers are untouched, and nothing is retried.
#[derive(Debug)]
pub enum ServicingStep {
    Continue { action: SchedulerAction },
    Stop { warning: Option<String> },
}

/// The decision a control servicing loop takes for one stream event:
/// `GetBatchPeriod` and `SetBatchPeriod` requests are forwarded to the
/// external scheduler verbatim; the end of the stream stops the loop
/// silently; a transport error stops it with a warning. It never panics
/// and never stops while requests keep coming.
pub fn control_servicing_step(event: ControlStreamEvent) -> (s: ServicingStep)
    ensures
        match event {
            ControlStreamEvent::Request { request } => match request {
                WorkSchedulerControlRequest::GetBatchPeriod => s
                    matches ServicingStep::Continue { action } && action
                    is GetBatchPeriod,
                WorkSchedulerControlRequest::SetBatchPeriod { batch_period } => s
                    matches ServicingStep::Continue { action } && action
                    matches SchedulerAction::SetBatchPeriod { batch_period: p } && p
                    == batch_period,
            },
            ControlStreamEvent::Closed => s matches ServicingStep::Stop { warning } && warning
                is None,
            ControlStreamEvent::TransportError { message } => s
                matches ServicingStep::Stop { warning } && warning matches Option::Some(w) && w@
                == message@,
        },
{
    match event {
        ControlStreamEvent::Request { request } => match request {
            WorkSchedulerControlRequest::GetBatchPeriod => ServicingStep::Continue {
                action: SchedulerAction::GetBatchPeriod,
            },
            WorkSchedulerControlRequest::SetBatchPeriod { batch_period } => ServicingStep::Continue {
                action: SchedulerAction::SetBatchPeriod { batch_period },
            },
        },
        ControlStreamEvent::Closed => ServicingStep::Stop { warning: Option::None },
        ControlStreamEvent::TransportError { message } => ServicingStep::Stop {
            warning: Option::Some(message),
        },
    }
}

/// The decision a worker servicing loop takes for one stream event: work
/// operations are forwarded to the external scheduler with the provider's
/// scope moniker attached, so every work item scheduled through this
/// connection is attributed to that one instance; stream end and transport
/// errors stop the loop as in the control loop.
pub fn worker_servicing_step(scope_moniker: &AbsoluteMoniker, event: WorkerStreamEvent) -> (s:
    ServicingStep)
    ensures
        match event {
            WorkerStreamEvent::Request { request } => match request {
                WorkSchedulerRequest::ScheduleWork { work_id, work_request } => s
                    matches ServicingStep::Continue { action } && action
                    matches SchedulerAction::ScheduleWork {
                    scope_moniker: m,
                    work_id: w,
                    work_request: r,
                } && m@ == scope_moniker@ && w@ == work_id@ && r == work_request,
                WorkSchedulerRequest::CancelWork { work_id } => s
                    matches ServicingStep::Continue { action } && action
                    matches SchedulerAction::CancelWork { scope_moniker: m, work_id: w } && m@
                    == scope_moniker@ && w@ == work_id@,
            },
            WorkerStreamEvent::Closed => s matches ServicingStep::Stop { warning } && warning
                is None,
            WorkerStreamEvent::TransportError { message } => s
                matches ServicingStep::Stop { warning } && warning matches Option::Some(w) && w@
                == message@,
        },
{
    match event {
        WorkerStreamEvent::Request { request } => match request {
            WorkSchedulerRequest::ScheduleWork { work_id, work_request } => ServicingStep::Continue {
                action: SchedulerAction::ScheduleWork {
                    scope_moniker: scope_moniker.clone(),
                    work_id,
                    work_request,
                },
            },
            WorkSchedulerRequest::CancelWork { work_id } => ServicingStep::Continue {
                action: SchedulerAction::CancelWork {
                    scope_moniker: scope_moniker.clone(),
                    work_id,
                },
            },
        },
        WorkerStreamEvent::Closed => ServicingStep::Stop { warning: Option::None },
        WorkerStreamEvent::TransportError { message } => ServicingStep::Stop {
            warning: Option::Some(message),
        },
    }
}

/// The work-scheduling subsystem as the routing layer sees it: the set of
/// monikers that have been verified as exposing the worker protocol to the
/// framework. The batch-period and work-item bookkeeping behind the two
/// protocols lives in the external scheduler.
#[derive(Debug)]
pub struct WorkScheduler {
    workers: Vec<AbsoluteMoniker>,
}

impl View for WorkScheduler {
    type V = Seq<Seq<Seq<char>>>;

    closed spec fn view(&self) -> Seq<Seq<Seq<char>>> {
        self.workers.deep_view()
    }
}

impl DeepView for WorkScheduler {
    type V = Seq<Seq<Seq<char>>>;

    open spec fn deep_view(&self) -> Seq<Seq<Seq<char>>> {
        self.view()
    }
}

impl WorkScheduler {
    pub fn new() -> (r: WorkScheduler)
        ensures
            r@ == Seq::<Seq<Seq<char>>>::empty(),
    {
        let r = WorkScheduler { workers: Vec::new() };
        proof {
            assert(r@ =~= Seq::<Seq<Seq<char>>>::empty());
        }
        r
    }

    /// The hook registrations for a scheduler living at registry slot `id`:
    /// one registration, interested in instance resolution and capability
    /// routing, holding only a non-owning handle so that destroying the
    /// subsystem stops its hooks firing.
    pub fn hooks(id: usize) -> (r: Vec<HooksRegistration>)
        ensures
            r.deep_view().len() == 1,
            r.deep_view()[0].events == seq![
                EventType::ResolveInstance,
                EventType::RouteCapability,
            ],
            r.deep_view()[0].id == id as int,
    {
        let mut events: Vec<EventType> = Vec::new();
        events.push(EventType::ResolveInstance);
        events.push(EventType::RouteCapability);
        let mut r: Vec<HooksRegistration> = Vec::new();
        r.push(HooksRegistration { events, callback: WeakHook { id } });
        proof {
            assert(r.deep_view()[0].events =~= seq![
                EventType::ResolveInstance,
                EventType::RouteCapability,
            ]);
        }
        r
    }

    /// Whether `m` has been registered as an eligible worker: instances are
    /// registered when their manifest resolves, strictly before any scoped
    /// route for them can succeed.
    pub fn verify_worker_exposed_to_framework(&self, m: &AbsoluteMoniker) -> (r: bool)
        ensures
            r == workers_contain(self@, m@),
    {
        let n = self.workers.len();
        let mut i: usize = 0;
        while i < n
            invariant
                n == self.workers.len(),
                self@.len() == n,
                i <= n,
                forall|j: int| 0 <= j < i ==> self@[j] != m@,
            decreases n - i,
        {
            if self.workers[i] == *m {
                assert(self@[i as int] == m@);
                return true;
            }
            i = i + 1;
        }
        false
    }

    /// Registers the instance at `target_moniker` as an eligible worker
    /// when its resolved manifest exposes the worker protocol to the
    /// framework; otherwise leaves the set unchanged.
    pub fn try_add_realm_as_worker(
        &mut self,
        target_moniker: &AbsoluteMoniker,
        decl: &ComponentDecl,
    )
        ensures
            final(self)@ == add_worker_spec(old(self)@, target_moniker@, decl@),
    {
        let worker_path = worker_capability_path();
        if decl.exposes_protocol_to_framework(&worker_path)
            && !self.verify_worker_exposed_to_framework(target_moniker) {
            let ghost pre = self@;
            self.workers.push(target_moniker.clone());
            proof {
                assert(self@ =~= pre.push(target_moniker@));
            }
        }
    }

    /// Routes the global scheduler-control capability: claims an empty slot
    /// for a matching capability path with a fresh control provider bound
    /// to this scheduler, and passes anything else through unchanged.
    pub fn on_route_framework_capability(
        &self,
        self_id: usize,
        capability: &FrameworkCapability,
        capability_provider: Option<CapabilityProvider>,
    ) -> (r: Result<Option<CapabilityProvider>, ModelError>)
        ensures
            r matches Result::Ok(p) && opt_provider_view(p) == ({
                if capability_provider is None && crate::hooks::framework_capability_path(
                    *capability,
                ) == work_scheduler_control_capability_path_view() {
                    Option::Some(
                        CapabilityProviderView::Control { work_scheduler: self_id as int },
                    )
                } else {
                    opt_provider_view(capability_provider)
                }
            }),
    {
        let control_path = work_scheduler_control_capability_path();
        match (&capability_provider, capability) {
            (Option::None, FrameworkCapability::ServiceProtocol(capability_path)) if *capability_path
                == control_path => {
                Result::Ok(
                    Option::Some(
                        CapabilityProvider::Control(
                            WorkSchedulerControlCapabilityProvider::new(self_id),
                        ),
                    ),
                )
            },
            _ => Result::Ok(capability_provider),
        }
    }

    /// Routes the scoped worker capability: for a matching capability path
    /// and an empty slot, first verifies that the target instance is an
    /// eligible worker — an instance that does not expose the worker
    /// protocol to the framework is not entitled to the capability at all,
    /// and the whole dispatch fails with a discovery error — and otherwise
    /// claims the slot with a fresh provider bound to this scheduler and
    /// the scope moniker. Anything else passes through unchanged.
    pub fn on_route_scoped_framework_capability(
        &self,
        self_id: usize,
        scope_moniker: AbsoluteMoniker,
        capability: &FrameworkCapability,
        capability_provider: Option<CapabilityProvider>,
    ) -> (r: Result<Option<CapabilityProvider>, ModelError>)
        ensures
            ({
                if capability_provider is None && crate::hooks::framework_capability_path(
                    *capability,
                ) == work_scheduler_capability_path_view() {
                    if !workers_contain(self@, scope_moniker@) {
                        r matches Result::Err(e) && e@ == (ModelErrorView::CapabilityDiscovery {
                            moniker: scope_moniker@,
                        })
                    } else {
                        r matches Result::Ok(p) && opt_provider_view(p) == Option::Some(
                            CapabilityProviderView::Worker {
                                work_scheduler: self_id as int,
                                scope_moniker: scope_moniker@,
                            },
                        )
                    }
                } else {
                    r matches Result::Ok(p) && opt_provider_view(p) == opt_provider_view(
                        capability_provider,
                    )
                }
            }),
    {
        let worker_scheduler_path = work_scheduler_capability_path();
        match (&capability_provider, capability) {
            (Option::None, FrameworkCapability::ServiceProtocol(capability_path)) if *capability_path
                == worker_scheduler_path => {
                if !self.verify_worker_exposed_to_framework(&scope_moniker) {
                    return Result::Err(ModelError::capability_discovery_error(scope_moniker));
                }
                Result::Ok(
                    Option::Some(
                        CapabilityProvider::Worker(
                            WorkSchedulerCapabilityProvider::new(scope_moniker, self_id),
                        ),
                    ),
                )
            },
            _ => Result::Ok(capability_provider),
        }
    }

    /// Handles one dispatched event, as the hook of the scheduler at
    /// registry slot `self_id`. `capability_provider` is the shared,
    /// mutually-exclusive provider slot of a `RouteCapability` dispatch;
    /// events this scheduler is not concerned with leave it untouched.
    pub fn on(
        &mut self,
        self_id: usize,
        event: &Event,
        capability_provider: &mut Option<CapabilityProvider>,
    ) -> (r: Result<(), ModelError>)
        ensures
            ({
                let step = scheduler_on_spec(
                    old(self)@,
                    self_id as int,
                    event@,
                    opt_provider_view(*old(capability_provider)),
                );
                &&& final(self)@ == step.workers
                &&& opt_provider_view(*final(capability_provider)) == step.slot
                &&& match r {
                    Result::Ok(()) => step.result is Ok,
                    Result::Err(e) => step.result matches Result::Err(ev) && e@ == ev,
                }
            }),
    {
        match &event.payload {
            EventPayload::ResolveInstance { decl } => {
                self.try_add_realm_as_worker(&event.target_moniker, decl);
                Result::Ok(())
            },
            EventPayload::RouteCapability {
                source: CapabilitySource::Framework { capability, scope_moniker: Option::None },
            } => {
                let current = capability_provider.take();
                match self.on_route_framework_capability(self_id, capability, current) {
                    Result::Ok(next) => {
                        *capability_provider = next;
                        Result::Ok(())
                    },
                    Result::Err(e) => Result::Err(e),
                }
            },
            EventPayload::RouteCapability {
                source: CapabilitySource::Framework {
                    capability,
                    scope_moniker: Option::Some(scope_moniker),
                },
            } => {
                let current = capability_provider.take();
                match self.on_route_scoped_framework_capability(
                    self_id,
                    scope_moniker.clone(),
                    capability,
                    current,
                ) {
                    Result::Ok(next) => {
                        *capability_provider = next;
                        Result::Ok(())
                    },
                    Result::Err(e) => Result::Err(e),
                }
            },
        }
    }
}

} // verus!
