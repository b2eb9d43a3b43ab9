//! The event bus of the routing layer: lifecycle events, hook
//! registrations with non-owning callbacks, and sequential dispatch.
//! Dispatch delivers an event to every registered hook whose declared event
//! types include the event's type and whose subsystem is still alive, in
//! registration order, stopping at the first hook error. The shared
//! provider slot of a `RouteCapability` dispatch is threaded through the
//! hooks by mutable reference; dispatch being sequential is what makes its
//! first-responder-wins protocol race-free.

use vstd::prelude::*;
use crate::decl::ComponentDecl;
use crate::decl::ExposeDeclView;
use crate::moniker::AbsoluteMoniker;
use crate::storage::CapabilityPath;
use crate::work_scheduler::CapabilityProvider;
use crate::work_scheduler::CapabilityProviderView;
use crate::work_scheduler::WorkScheduler;
use crate::work_scheduler::opt_provider_view;
use crate::work_scheduler::scheduler_on_spec;
use crate::work_scheduler::work_scheduler_capability_path_view;
use crate::work_scheduler::work_scheduler_control_capability_path_view;
use crate::work_scheduler::workers_contain;

verus! {

/// The lifecycle event types this layer dispatches.
#[derive(Clone, Copy, Debug, PartialEq, Eq, Structural)]
pub enum EventType {
    ResolveInstance,
    RouteCapability,
}

/// A framework capability under routing: the closed set of capability
/// shapes this layer routes.
#[derive(Debug)]
pub enum FrameworkCapability {
    ServiceProtocol(CapabilityPath),
}

/// Who a routed capability is for: framework-global (`scope_moniker` is
/// `None`, one instance for every caller) or framework-scoped to one
/// component instance.
#[derive(Debug)]
pub enum CapabilitySource {
    Framework { capability: FrameworkCapability, scope_moniker: Option<AbsoluteMoniker> },
}

/// The spec-level value of an event payload.
pub enum EventPayloadView {
    ResolveInstance { decl: Seq<ExposeDeclView> },
    RouteCapability { capability: Seq<char>, scope_moniker: Option<Seq<Seq<char>>> },
}

/// The spec-level value of an event.
pub struct EventView {
    pub target_moniker: Seq<Seq<char>>,
    pub payload: EventPayloadView,
}

/// An event's payload. `ResolveInstance` announces that an instance's
/// manifest has been resolved; `RouteCapability` asks the hooks to fill the
/// dispatch's shared provider slot for the named capability.
#[derive(Debug)]
pub enum EventPayload {
    ResolveInstance { decl: ComponentDecl },
    RouteCapability { source: CapabilitySource },
}

/// A lifecycle event: the instance it concerns and what happened.
#[derive(Debug)]
pub struct Event {
    pub target_moniker: AbsoluteMoniker,
    pub payload: EventPayload,
}

impl View for Event {
    type V = EventView;

    open spec fn view(&self) -> EventView {
        EventView {
            target_moniker: self.target_moniker@,
            payload: match &self.payload {
                EventPayload::ResolveInstance { decl } => EventPayloadView::ResolveInstance {
                    decl: decl@,
                },
                EventPayload::RouteCapability {
                    source: CapabilitySource::Framework { capability, scope_moniker },
                } => EventPayloadView::RouteCapability {
                    capability: match capability {
                        FrameworkCapability::ServiceProtocol(path) => path@,
                    },
                    scope_moniker: match scope_moniker {
                        Option::Some(m) => Option::Some(m@),
                        Option::None => Option::None,
                    },
                },
            },
        }
    }
}

/// The capability path named by a framework capability.
pub open spec fn framework_capability_path(c: FrameworkCapability) -> Seq<char> {
    match c {
        FrameworkCapability::ServiceProtocol(path) => path@,
    }
}

/// The type of an event, as a spec-level function of its payload.
pub open spec fn event_type_view(e: EventView) -> EventType {
    match e.payload {
        EventPayloadView::ResolveInstance { .. } => EventType::ResolveInstance,
        EventPayloadView::RouteCapability { .. } => EventType::RouteCapability,
    }
}

impl Event {
    /// The type of this event.
    pub fn event_type(&self) -> (t: EventType)
        ensures
            t == event_type_view(self@),
    {
        match &self.payload {
            EventPayload::ResolveInstance { .. } => EventType::ResolveInstance,
            EventPayload::RouteCapability { .. } => EventType::RouteCapability,
        }
    }
}

/// The spec-level value of a routing-layer error.
pub enum ModelErrorView {
    CapabilityDiscovery { moniker: Seq<Seq<char>> },
    CapabilityProvider { message: Seq<char> },
}

/// An error of the routing layer: a capability-discovery failure (the
/// target instance is not entitled to the capability at all), or a generic
/// provider failure (a routed provider could not take responsibility for a
/// connection).
#[derive(Debug)]
pub enum ModelError {
    CapabilityDiscoveryError { moniker: AbsoluteMoniker },
    CapabilityProviderError { message: String },
}

impl View for ModelError {
    type V = ModelErrorView;

    open spec fn view(&self) -> ModelErrorView {
        match self {
            ModelError::CapabilityDiscoveryError { moniker } => ModelErrorView::CapabilityDiscovery {
                moniker: moniker@,
            },
            ModelError::CapabilityProviderError { message } => ModelErrorView::CapabilityProvider {
                message: message@,
            },
        }
    }
}

impl ModelError {
    pub fn capability_discovery_error(moniker: AbsoluteMoniker) -> (r: ModelError)
        ensures
            r@ == (ModelErrorView::CapabilityDiscovery { moniker: moniker@ }),
    {
        ModelError::CapabilityDiscoveryError { moniker }
    }

    pub fn capability_provider_error(message: String) -> (r: ModelError)
        ensures
            r@ == (ModelErrorView::CapabilityProvider { message: message@ }),
    {
        ModelError::CapabilityProviderError { message }
    }
}

/// A non-owning handle to a hook-owning subsystem: the slot it occupies in
/// the registry. It keeps nothing alive; dispatch checks liveness each
/// time.
#[derive(Clone, Copy, Debug, PartialEq, Eq, Structural)]
pub struct WeakHook {
    pub id: usize,
}

/// The spec-level value of a hook registration.
pub struct HooksRegistrationView {
    pub events: Seq<EventType>,
    pub id: int,
}

/// One subsystem's hook registration: the event types it wants delivered,
/// and a non-owning handle to it.
#[derive(Debug)]
pub struct HooksRegistration {
    pub events: Vec<EventType>,
    pub callback: WeakHook,
}

impl View for HooksRegistration {
    type V = HooksRegistrationView;

    open spec fn view(&self) -> HooksRegistrationView {
        HooksRegistrationView { events: self.events@, id: self.callback.id as int }
    }
}

impl DeepView for HooksRegistration {
    type V = HooksRegistrationView;

    open spec fn deep_view(&self) -> HooksRegistrationView {
        self.view()
    }
}

/// The table of hook-owning subsystems. It models the heap of subsystems
/// the runtime has created: registering hands out the slot index that weak
/// handles carry, and destroying a subsystem empties its slot, after which
/// dispatch silently skips every registration that points at it.
pub struct HookRegistry {
    slots: Vec<Option<WorkScheduler>>,
}

impl View for HookRegistry {
    type V = Seq<Option<Seq<Seq<Seq<char>>>>>;

    closed spec fn view(&self) -> Seq<Option<Seq<Seq<Seq<char>>>>> {
        self.slots.deep_view()
    }
}

impl HookRegistry {
    pub fn new() -> (r: HookRegistry)
        ensures
            r@ == Seq::<Option<Seq<Seq<Seq<char>>>>>::empty(),
    {
        let r = HookRegistry { slots: Vec::new() };
        proof {
            assert(r@ =~= Seq::<Option<Seq<Seq<Seq<char>>>>>::empty());
        }
        r
    }

    /// Takes ownership of a subsystem and hands back the slot index that
    /// its weak handles will carry.
    pub fn register(&mut self, scheduler: WorkScheduler) -> (id: usize)
        ensures
            final(self)@ == old(self)@.push(Option::Some(scheduler@)),
            id as int == old(self)@.len(),
    {
        let ghost pre = self@;
        let id = self.slots.len();
        self.slots.push(Option::Some(scheduler));
        proof {
            assert(self@ =~= pre.push(Option::Some(scheduler@)));
        }
        id
    }

    /// Destroys the subsystem in slot `id`. Registrations pointing at the
    /// slot stay in the bus; dispatch simply stops delivering to them.
    pub fn destroy(&mut self, id: usize)
        requires
            id < old(self)@.len(),
        ensures
            final(self)@ == old(self)@.update(id as int, Option::None),
    {
        let ghost pre = self@;
        let slot = vstd::std_specs::vec::vec_index_mut(&mut self.slots, id);
        *slot = Option::None;
        proof {
            assert(self@ =~= pre.update(id as int, Option::None));
        }
    }

    /// The subsystem in slot `id`, while it is alive.
    pub fn get(&self, id: usize) -> (r: Option<&WorkScheduler>)
        ensures
            match r {
                Option::Some(ws) => id < self@.len() && self@[id as int] == Option::Some(ws@),
                Option::None => id >= self@.len() || self@[id as int] is None,
            },
    {
        if id < self.slots.len() {
            match &self.slots[id] {
                Option::Some(ws) => Option::Some(ws),
                Option::None => Option::None,
            }
        } else {
            Option::None
        }
    }
}

/// The result of dispatching an event: the subsystem table and provider
/// slot afterwards, and whether a hook failed the dispatch.
pub struct DispatchStepView {
    pub slots: Seq<Option<Seq<Seq<Seq<char>>>>>,
    pub provider: Option<CapabilityProviderView>,
    pub result: Result<(), ModelErrorView>,
}

/// Whether dispatch delivers `event` to the hook of registration `reg`:
/// the registration declares the event's type, and the subsystem behind its
/// weak handle is still there.
pub open spec fn hook_eligible(
    reg: HooksRegistrationView,
    slots: Seq<Option<Seq<Seq<Seq<char>>>>>,
    event: EventView,
) -> bool {
    reg.events.contains(event_type_view(event)) && 0 <= reg.id < slots.len() && slots[reg.id]
        is Some
}

/// The functional model of dispatch: deliver the event to each remaining
/// registration in order — skipping those not interested in the event's
/// type and those whose subsystem is gone — threading the provider slot
/// through, and stop at the first hook error.
pub open spec fn dispatch_spec(
    regs: Seq<HooksRegistrationView>,
    slots: Seq<Option<Seq<Seq<Seq<char>>>>>,
    event: EventView,
    provider: Option<CapabilityProviderView>,
) -> DispatchStepView
    decreases regs.len(),
{
    if regs.len() == 0 {
        DispatchStepView { slots, provider, result: Result::Ok(()) }
    } else {
        let reg = regs[0];
        if hook_eligible(reg, slots, event) {
            match slots[reg.id] {
                Option::Some(workers) => {
                    let step = scheduler_on_spec(workers, reg.id, event, provider);
                    match step.result {
                        Result::Ok(()) => dispatch_spec(
                            regs.drop_first(),
                            slots.update(reg.id, Option::Some(step.workers)),
                            event,
                            step.slot,
                        ),
                        Result::Err(e) => DispatchStepView {
                            slots: slots.update(reg.id, Option::Some(step.workers)),
                            provider: step.slot,
                            result: Result::Err(e),
                        },
                    }
                },
                Option::None => dispatch_spec(regs.drop_first(), slots, event, provider),
            }
        } else {
            dispatch_spec(regs.drop_first(), slots, event, provider)
        }
    }
}

/// Whether `events` contains `et`.
fn contains_event_type(events: &Vec<EventType>, et: EventType) -> (r: bool)
    ensures
        r == events@.contains(et),
{
    let n = events.len();
    let mut i: usize = 0;
    while i < n
        invariant
            n == events.len(),
            i <= n,
            forall|j: int| 0 <= j < i ==> events@[j] != et,
        decreases n - i,
    {
        if events[i] == et {
            return true;
        }
        i = i + 1;
    }
    false
}

/// The event bus: the hook registrations of every subsystem, in the order
/// they were installed. The bus owns no subsystem; each registration holds
/// only a weak handle into the registry.
pub struct Hooks {
    hooks: Vec<HooksRegistration>,
}

impl View for Hooks {
    type V = Seq<HooksRegistrationView>;

    closed spec fn view(&self) -> Seq<HooksRegistrationView> {
        self.hooks.deep_view()
    }
}

impl Hooks {
    pub fn new() -> (r: Hooks)
        ensures
            r@ == Seq::<HooksRegistrationView>::empty(),
    {
        let r = Hooks { hooks: Vec::new() };
        proof {
            assert(r@ =~= Seq::<HooksRegistrationView>::empty());
        }
        r
    }

    /// Appends a subsystem's registrations to the bus, after everything
    /// installed before them.
    pub fn install(&mut self, mut regs: Vec<HooksRegistration>)
        ensures
            final(self)@ == old(self)@ + regs.deep_view(),
    {
        let ghost pre = self@;
        let ghost added = regs.deep_view();
        let n = regs.len();
        let mut i: usize = 0;
        while i < n
            invariant
                n == regs.len(),
                regs.deep_view() == added,
                i <= n,
                self@ == pre + added.take(i as int),
            decreases n - i,
        {
            let reg = HooksRegistration {
                events: clone_event_types(&regs[i].events),
                callback: regs[i].callback,
            };
            let ghost mid = self@;
            self.hooks.push(reg);
            proof {
                assert(self@ =~= mid.push(added[i as int]));
                assert(pre + added.take(i as int) + seq![added[i as int]] =~= pre + added.take(
                    i as int + 1,
                ));
            }
            i = i + 1;
        }
        proof {
            assert(added.take(n as int) =~= added);
        }
    }

    /// Delivers `event` to each registered hook in registration order:
    /// only to hooks whose declared event types include the event's type
    /// and whose subsystem is still alive, waiting for each hook to finish
    /// before invoking the next. `capability_provider` is the dispatch's
    /// shared provider slot; hooks of other dispatches never see it. If a
    /// hook fails, dispatch stops and propagates that hook's error; the
    /// work of the hooks before it stands.
    pub fn dispatch(
        &self,
        registry: &mut HookRegistry,
        event: &Event,
        capability_provider: &mut Option<CapabilityProvider>,
    ) -> (r: Result<(), ModelError>)
        ensures
            ({
                let step = dispatch_spec(
                    self@,
                    old(registry)@,
                    event@,
                    opt_provider_view(*old(capability_provider)),
                );
                &&& final(registry)@ == step.slots
                &&& opt_provider_view(*final(capability_provider)) == step.provider
                &&& match r {
                    Result::Ok(()) => step.result is Ok,
                    Result::Err(e) => step.result matches Result::Err(ev) && e@ == ev,
                }
            }),
    {
        proof {
            assert(self@.skip(0) =~= self@);
        }
        let et = event.event_type();
        let n = self.hooks.len();
        let mut i: usize = 0;
        while i < n
            invariant
                n == self.hooks.len(),
                self@.len() == n,
                i <= n,
                dispatch_spec(
                    self@.skip(i as int),
                    registry@,
                    event@,
                    opt_provider_view(*capability_provider),
                ) == dispatch_spec(
                    self@,
                    old(registry)@,
                    event@,
                    opt_provider_view(*old(capability_provider)),
                ),
                et == event_type_view(event@),
            decreases n - i,
        {
            let ghost pre_slots = registry@;
            let ghost pre_provider = opt_provider_view(*capability_provider);
            let ghost reg_v = self@[i as int];
            proof {
                assert(self@.skip(i as int)[0] == reg_v);
                assert(self@.skip(i as int).drop_first() =~= self@.skip(i as int + 1));
            }
            let reg = &self.hooks[i];
            if contains_event_type(&reg.events, et) {
                let id = reg.callback.id;
                if id < registry.slots.len() {
                    let slot = vstd::std_specs::vec::vec_index_mut(&mut registry.slots, id);
                    match slot {
                        Option::Some(ws) => {
                            let ghost workers = ws@;
                            let ghost step = scheduler_on_spec(
                                workers,
                                id as int,
                                event@,
                                pre_provider,
                            );
                            let step_result = ws.on(id, event, capability_provider);
                            proof {
                                assert(pre_slots[id as int] == Option::Some(workers));
                                assert(registry@ =~= pre_slots.update(
                                    id as int,
                                    Option::Some(step.workers),
                                ));
                            }
                            match step_result {
                                Result::Ok(()) => {},
                                Result::Err(e) => {
                                    proof {
                                        assert(reg_v.events.contains(event_type_view(event@)));
                                        assert(step.result matches Result::Err(ev) && e@ == ev);
                                        assert(dispatch_spec(
                                            self@.skip(i as int),
                                            pre_slots,
                                            event@,
                                            pre_provider,
                                        ) == (DispatchStepView {
                                            slots: pre_slots.update(
                                                id as int,
                                                Option::Some(step.workers),
                                            ),
                                            provider: step.slot,
                                            result: step.result,
                                        }));
                                    }
                                    return Result::Err(e);
                                },
                            }
                        },
                        Option::None => {
                            proof {
                                assert(registry@ =~= pre_slots);
                            }
                        },
                    }
                }
            }
            i = i + 1;
        }
        proof {
            assert(self@.skip(n as int) =~= Seq::<HooksRegistrationView>::empty());
        }
        Result::Ok(())
    }
}

/// Dispatch ignores registrations it does not deliver to: skipping an
/// ineligible prefix leaves the outcome unchanged.
pub proof fn lemma_dispatch_skips_ineligible_prefix(
    regs: Seq<HooksRegistrationView>,
    slots: Seq<Option<Seq<Seq<Seq<char>>>>>,
    event: EventView,
    provider: Option<CapabilityProviderView>,
    k: int,
)
    requires
        0 <= k <= regs.len(),
        forall|j: int| 0 <= j < k ==> !hook_eligible(#[trigger] regs[j], slots, event),
    ensures
        dispatch_spec(regs, slots, event, provider) == dispatch_spec(
            regs.skip(k),
            slots,
            event,
            provider,
        ),
    decreases k,
{
    if k == 0 {
        assert(regs.skip(0) =~= regs);
    } else {
        assert(!hook_eligible(regs[0], slots, event));
        assert(regs.drop_first() =~= regs.skip(1));
        lemma_dispatch_skips_ineligible_prefix(regs.skip(1), slots, event, provider, k - 1);
        assert(regs.skip(1).skip(k - 1) =~= regs.skip(k));
    }
}

/// A capability-routing dispatch whose shared slot is already filled passes
/// the slot through untouched: no later hook may overwrite it, no hook
/// fails, and no hook's state changes.
pub proof fn lemma_filled_slot_passes_through(
    regs: Seq<HooksRegistrationView>,
    slots: Seq<Option<Seq<Seq<Seq<char>>>>>,
    event: EventView,
    p: CapabilityProviderView,
)
    requires
        event.payload is RouteCapability,
    ensures
        dispatch_spec(regs, slots, event, Option::Some(p)) == (DispatchStepView {
            slots,
            provider: Option::Some(p),
            result: Result::Ok(()),
        }),
    decreases regs.len(),
{
    if regs.len() > 0 {
        let reg = regs[0];
        if hook_eligible(reg, slots, event) {
            match slots[reg.id] {
                Option::Some(workers) => {
                    let step = scheduler_on_spec(workers, reg.id, event, Option::Some(p));
                    assert(step.workers == workers && step.slot == Option::Some(p) && step.result
                        is Ok);
                    assert(slots.update(reg.id, Option::Some(workers)) =~= slots);
                },
                Option::None => {},
            }
        }
        lemma_filled_slot_passes_through(regs.drop_first(), slots, event, p);
    }
}

/// First responder wins: when the global scheduler-control capability is
/// routed with an empty slot, the first registration that is interested
/// and alive supplies the provider — a control provider bound to its own
/// subsystem — and every registration after it, whatever its position,
/// observes the filled slot and leaves it untouched. No hook fails and no
/// hook's state changes.
pub proof fn lemma_first_responder_wins(
    regs: Seq<HooksRegistrationView>,
    slots: Seq<Option<Seq<Seq<Seq<char>>>>>,
    event: EventView,
    k: int,
)
    requires
        event.payload matches EventPayloadView::RouteCapability { capability, scope_moniker }
            && capability == work_scheduler_control_capability_path_view() && scope_moniker
            is None,
        0 <= k < regs.len(),
        forall|j: int| 0 <= j < k ==> !hook_eligible(#[trigger] regs[j], slots, event),
        hook_eligible(regs[k], slots, event),
    ensures
        dispatch_spec(regs, slots, event, Option::None) == (DispatchStepView {
            slots,
            provider: Option::Some(
                CapabilityProviderView::Control { work_scheduler: regs[k].id },
            ),
            result: Result::Ok(()),
        }),
{
    lemma_dispatch_skips_ineligible_prefix(regs, slots, event, Option::None, k);
    let rest = regs.skip(k);
    assert(rest[0] == regs[k]);
    match slots[regs[k].id] {
        Option::Some(workers) => {
            let step = scheduler_on_spec(workers, regs[k].id, event, Option::None);
            assert(step.workers == workers && step.slot == Option::Some(
                CapabilityProviderView::Control { work_scheduler: regs[k].id },
            ) && step.result is Ok);
            assert(slots.update(regs[k].id, Option::Some(workers)) =~= slots);
            lemma_filled_slot_passes_through(
                rest.drop_first(),
                slots,
                event,
                CapabilityProviderView::Control { work_scheduler: regs[k].id },
            );
        },
        Option::None => {},
    }
}

/// Worker-capability entitlement: when the scoped worker capability is
/// routed with an empty slot to an instance that the first interested,
/// alive subsystem has not registered as a worker — its manifest does not
/// expose the worker protocol to the framework — the whole dispatch fails
/// with a capability-discovery error naming that instance, and no provider
/// is produced.
pub proof fn lemma_unentitled_scoped_route_fails(
    regs: Seq<HooksRegistrationView>,
    slots: Seq<Option<Seq<Seq<Seq<char>>>>>,
    event: EventView,
    scope: Seq<Seq<char>>,
    k: int,
)
    requires
        event.payload matches EventPayloadView::RouteCapability { capability, scope_moniker }
            && capability == work_scheduler_capability_path_view() && scope_moniker
            == Option::Some(scope),
        0 <= k < regs.len(),
        forall|j: int| 0 <= j < k ==> !hook_eligible(#[trigger] regs[j], slots, event),
        hook_eligible(regs[k], slots, event),
        slots[regs[k].id] matches Option::Some(workers) && !workers_contain(workers, scope),
    ensures
        dispatch_spec(regs, slots, event, Option::None) == (DispatchStepView {
            slots,
            provider: Option::None,
            result: Result::Err(ModelErrorView::CapabilityDiscovery { moniker: scope }),
        }),
{
    lemma_dispatch_skips_ineligible_prefix(regs, slots, event, Option::None, k);
    let rest = regs.skip(k);
    assert(rest[0] == regs[k]);
    match slots[regs[k].id] {
        Option::Some(workers) => {
            let step = scheduler_on_spec(workers, regs[k].id, event, Option::None);
            assert(step.workers == workers && step.slot is None && step.result
                == Result::<(), ModelErrorView>::Err(
                ModelErrorView::CapabilityDiscovery { moniker: scope },
            ));
            assert(slots.update(regs[k].id, Option::Some(workers)) =~= slots);
        },
        Option::None => {},
    }
}

/// An entitled scoped route claims the slot: when the scoped worker
/// capability is routed with an empty slot to an instance that the first
/// interested, alive subsystem has registered as a worker, that subsystem
/// supplies a worker provider bound to itself and to the instance, and
/// every later registration leaves the slot untouched.
pub proof fn lemma_entitled_scoped_route_claims(
    regs: Seq<HooksRegistrationView>,
    slots: Seq<Option<Seq<Seq<Seq<char>>>>>,
    event: EventView,
    scope: Seq<Seq<char>>,
    k: int,
)
    requires
        event.payload matches EventPayloadView::RouteCapability { capability, scope_moniker }
            && capability == work_scheduler_capability_path_view() && scope_moniker
            == Option::Some(scope),
        0 <= k < regs.len(),
        forall|j: int| 0 <= j < k ==> !hook_eligible(#[trigger] regs[j], slots, event),
        hook_eligible(regs[k], slots, event),
        slots[regs[k].id] matches Option::Some(workers) && workers_contain(workers, scope),
    ensures
        dispatch_spec(regs, slots, event, Option::None) == (DispatchStepView {
            slots,
            provider: Option::Some(
                CapabilityProviderView::Worker { work_scheduler: regs[k].id, scope_moniker: scope },
            ),
            result: Result::Ok(()),
        }),
{
    lemma_dispatch_skips_ineligible_prefix(regs, slots, event, Option::None, k);
    let rest = regs.skip(k);
    assert(rest[0] == regs[k]);
    match slots[regs[k].id] {
        Option::Some(workers) => {
            let step = scheduler_on_spec(workers, regs[k].id, event, Option::None);
            assert(step.workers == workers && step.slot == Option::Some(
                CapabilityProviderView::Worker { work_scheduler: regs[k].id, scope_moniker: scope },
            ) && step.result is Ok);
            assert(slots.update(regs[k].id, Option::Some(workers)) =~= slots);
            lemma_filled_slot_passes_through(
                rest.drop_first(),
                slots,
                event,
                CapabilityProviderView::Worker { work_scheduler: regs[k].id, scope_moniker: scope },
            );
        },
        Option::None => {},
    }
}

/// Weak-handle teardown: a registration whose subsystem has been destroyed
/// is silently skipped — dispatching with it present gives exactly the
/// outcome of dispatching without it, whatever the event. In particular a
/// dead registration never fails a dispatch.
pub proof fn lemma_dead_hook_skipped(
    regs: Seq<HooksRegistrationView>,
    slots: Seq<Option<Seq<Seq<Seq<char>>>>>,
    event: EventView,
    provider: Option<CapabilityProviderView>,
    k: int,
)
    requires
        0 <= k < regs.len(),
        !(0 <= regs[k].id < slots.len() && slots[regs[k].id] is Some),
    ensures
        dispatch_spec(regs, slots, event, provider) == dispatch_spec(
            regs.remove(k),
            slots,
            event,
            provider,
        ),
    decreases k,
{
    if k == 0 {
        assert(!hook_eligible(regs[0], slots, event));
        assert(regs.remove(0) =~= regs.drop_first());
    } else {
        let reg = regs[0];
        assert(regs.remove(k)[0] == reg);
        assert(regs.remove(k).drop_first() =~= regs.drop_first().remove(k - 1));
        assert(regs.drop_first()[k - 1] == regs[k]);
        if hook_eligible(reg, slots, event) {
            match slots[reg.id] {
                Option::Some(workers) => {
                    let step = scheduler_on_spec(workers, reg.id, event, provider);
                    match step.result {
                        Result::Ok(()) => {
                            let slots2 = slots.update(reg.id, Option::Some(step.workers));
                            assert(!(0 <= regs[k].id < slots2.len() && slots2[regs[k].id]
                                is Some)) by {
                                if 0 <= regs[k].id < slots.len() {
                                    assert(regs[k].id != reg.id);
                                    assert(slots2[regs[k].id] == slots[regs[k].id]);
                                }
                            };
                            lemma_dead_hook_skipped(
                                regs.drop_first(),
                                slots2,
                                event,
                                step.slot,
                                k - 1,
                            );
                        },
                        Result::Err(..) => {},
                    }
                },
                Option::None => {},
            }
        } else {
            lemma_dead_hook_skipped(regs.drop_first(), slots, event, provider, k - 1);
        }
    }
}

/// Clones a vector of event types.
fn clone_event_types(events: &Vec<EventType>) -> (r: Vec<EventType>)
    ensures
        r@ == events@,
{
    let mut r: Vec<EventType> = Vec::new();
    let n = events.len();
    let mut i: usize = 0;
    while i < n
        invariant
            n == events.len(),
            i <= n,
            r@ == events@.take(i as int),
        decreases n - i,
    {
        r.push(events[i]);
        proof {
            assert(events@.take(i as int).push(events@[i as int]) =~= events@.take(i as int + 1));
        }
        i = i + 1;
    }
    proof {
        assert(events@.take(n as int) =~= events@);
    }
    r
}

} // verus!
