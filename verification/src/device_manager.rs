//! Device registry: one serial backend per device name, created on first use and kept
//! from then on, and handed to one request at a time.

use vstd::prelude::*;
use crate::errors::{DeviceError, DeviceErrorView};
use crate::servo_controller::{
    open_failure,
    AckReport,
    AckReportView,
    AxisCommand,
    SerialExchange,
    SerialExchangeView,
    NEUTRAL_ANGLE,
};
use crate::transport::{IoOutcome, IoOutcomeView};

verus! {

/// Where the handle of a device stands.
#[derive(Debug, Clone, Copy, PartialEq, Eq)]
pub enum HandlePhase {
    /// The transport is being opened for the request that found no handle.
    Opening,
    /// The transport is open and no request uses it.
    Idle,
    /// The transport is open and a request is using it.
    Busy,
}

/// The handle of one device: there is one for each device that the registry knows, and
/// none for a device whose transport could not be opened.
#[derive(Debug, Clone, PartialEq, Eq)]
pub struct DeviceHandle {
    name: String,
    phase: HandlePhase,
}

impl DeviceHandle {
    /// Name of the device.
    pub closed spec fn device(self) -> Seq<char> {
        self.name@
    }

    /// Where the handle stands.
    pub closed spec fn standing(self) -> HandlePhase {
        self.phase
    }

    /// Name of the device.
    pub fn name(&self) -> (name: &String)
        ensures
            name@ == self.device(),
    {
        &self.name
    }

    /// Where the handle stands.
    pub fn phase(&self) -> (phase: HandlePhase)
        ensures
            phase == self.standing(),
    {
        self.phase
    }
}

/// Mathematical model of the registry: the phase of the handle of each known device.
pub type Registry = Map<Seq<char>, HandlePhase>;

/// The answer to a request for the handle of a device.
#[derive(Debug, Clone, Copy, PartialEq, Eq)]
pub enum Acquired {
    /// The handle exists and is now held by the request.
    Ready,
    /// There was no handle. One was entered for the request, which must open the transport.
    MustOpen,
    /// Another request holds the handle, or is opening the transport.
    Held,
}

/// One step of a request to a device. Each variant but the last two names what the
/// driver does next; the driver then reports the outcome to [`DeviceManager::advance`].
#[derive(Debug, PartialEq, Eq)]
pub enum DeviceStep {
    /// Open the serial port `name`; `command` is delivered once it is open.
    Open { name: String, command: AxisCommand },
    /// Perform the pending step of `exchange` on the open port `name`.
    Port { name: String, exchange: SerialExchange },
    /// The device is in use. Nothing was done; the request may be made again later.
    Wait,
    /// The request is over, with this result.
    Done(Result<AckReport, DeviceError>),
}

/// Mathematical model of a [`DeviceStep`].
pub enum DeviceStepView {
    Open { name: Seq<char>, command: AxisCommand },
    Port { name: Seq<char>, exchange: SerialExchangeView },
    Wait,
    Done(Result<AckReportView, DeviceErrorView>),
}

impl View for DeviceStep {
    type V = DeviceStepView;

    open spec fn view(&self) -> DeviceStepView {
        match self {
            DeviceStep::Open { name, command } => DeviceStepView::Open {
                name: name@,
                command: *command,
            },
            DeviceStep::Port { name, exchange } => DeviceStepView::Port {
                name: name@,
                exchange: exchange@,
            },
            DeviceStep::Wait => DeviceStepView::Wait,
            DeviceStep::Done(Ok(report)) => DeviceStepView::Done(Ok(report@)),
            DeviceStep::Done(Err(e)) => DeviceStepView::Done(Err(e@)),
        }
    }
}

/// The command of a liveness probe: a move of the first axis to its neutral angle.
pub open spec fn probe_command() -> AxisCommand {
    AxisCommand { x: Some(NEUTRAL_ANGLE), y: None }
}

/// The registry after a request for the handle of `name`, and the answer to the request.
///
/// A device without a handle gets one, in the phase `Opening`. An idle handle is given to
/// the request. A handle that is held or being opened is left alone.
pub open spec fn acquire(registry: Registry, name: Seq<char>) -> (Registry, Acquired) {
    if !registry.contains_key(name) {
        (registry.insert(name, HandlePhase::Opening), Acquired::MustOpen)
    } else if registry[name] == HandlePhase::Idle {
        (registry.insert(name, HandlePhase::Busy), Acquired::Ready)
    } else {
        (registry, Acquired::Held)
    }
}

/// The registry after the request that holds the handle of `name` has ended.
pub open spec fn release(registry: Registry, name: Seq<char>) -> Registry {
    if registry.contains_key(name) {
        registry.insert(name, HandlePhase::Idle)
    } else {
        registry
    }
}

/// The registry after a request to deliver `command` to `name` was made, and the first
/// step of that request.
pub open spec fn begin(registry: Registry, name: Seq<char>, command: AxisCommand) -> (
    Registry,
    DeviceStepView,
) {
    let (next, acquired) = acquire(registry, name);
    (
        next,
        match acquired {
            Acquired::MustOpen => DeviceStepView::Open { name, command },
            Acquired::Ready => DeviceStepView::Port {
                name,
                exchange: SerialExchangeView::Write(command.wire()),
            },
            Acquired::Held => DeviceStepView::Wait,
        },
    )
}

/// The registry and the step that follow when what `step` asked for ended with `outcome`.
///
/// A transport that could not be opened removes the handle that was entered for it: the
/// request ends with `Unavailable` and the next request starts from nothing. A transport
/// that is open is held by the request until the delivery is over, whatever its result.
pub open spec fn proceed(registry: Registry, step: DeviceStepView, outcome: IoOutcomeView) -> (
    Registry,
    DeviceStepView,
) {
    match step {
        DeviceStepView::Open { name, command } => match open_failure(name, outcome) {
            None => (
                registry.insert(name, HandlePhase::Busy),
                DeviceStepView::Port { name, exchange: SerialExchangeView::Write(command.wire()) },
            ),
            Some(e) => (registry.remove(name), DeviceStepView::Done(Err(e))),
        },
        DeviceStepView::Port { name, exchange } => match exchange.advance(outcome) {
            SerialExchangeView::Done(result) => (
                release(registry, name),
                DeviceStepView::Done(result),
            ),
            next => (registry, DeviceStepView::Port { name, exchange: next }),
        },
        DeviceStepView::Wait => (registry, DeviceStepView::Wait),
        DeviceStepView::Done(result) => (registry, DeviceStepView::Done(result)),
    }
}

/// What a finished probe says about the device: a device whose transport could not be
/// opened is reported as an error, any other failure as a device that is not alive.
pub open spec fn probe_verdict(result: Result<AckReportView, DeviceErrorView>) -> Result<
    bool,
    DeviceErrorView,
> {
    match result {
        Ok(_) => Ok(true),
        Err(DeviceErrorView::Unavailable(name, reason)) => Err(
            DeviceErrorView::Unavailable(name, reason),
        ),
        Err(_) => Ok(false),
    }
}

/// No two handles have the same name.
spec fn names_distinct(handles: Seq<DeviceHandle>) -> bool {
    forall|i: int, j: int|
        0 <= i < j < handles.len() ==> (#[trigger] handles[i]).name@ != (#[trigger] handles[j]).name@
}

/// Whether `i` is the position of the handle of `name`.
spec fn at(handles: Seq<DeviceHandle>, name: Seq<char>, i: int) -> bool {
    0 <= i < handles.len() && handles[i].name@ == name
}

/// The registry that a list of handles stands for.
spec fn as_registry(handles: Seq<DeviceHandle>) -> Registry {
    Map::new(
        |name: Seq<char>| exists|i: int| at(handles, name, i),
        |name: Seq<char>| handles[choose|i: int| at(handles, name, i)].phase,
    )
}

proof fn lemma_lookup(handles: Seq<DeviceHandle>, i: int)
    requires
        names_distinct(handles),
        0 <= i < handles.len(),
    ensures
        as_registry(handles).contains_key(handles[i].name@),
        as_registry(handles)[handles[i].name@] == handles[i].phase,
{
    let name = handles[i].name@;
    assert(at(handles, name, i));
    let j = choose|j: int| at(handles, name, j);
    assert(at(handles, name, j));
    if j < i {
        assert(handles[j].name@ != handles[i].name@);
    } else if i < j {
        assert(handles[i].name@ != handles[j].name@);
    }
}

proof fn lemma_absent(handles: Seq<DeviceHandle>, name: Seq<char>)
    requires
        forall|i: int| 0 <= i < handles.len() ==> (#[trigger] handles[i]).name@ != name,
    ensures
        !as_registry(handles).contains_key(name),
{
    if as_registry(handles).contains_key(name) {
        let i = choose|i: int| at(handles, name, i);
        assert(at(handles, name, i));
        assert(handles[i].name@ != name);
    }
}

proof fn lemma_push(handles: Seq<DeviceHandle>, handle: DeviceHandle)
    requires
        names_distinct(handles),
        !as_registry(handles).contains_key(handle.name@),
    ensures
        names_distinct(handles.push(handle)),
        as_registry(handles.push(handle)) == as_registry(handles).insert(handle.name@, handle.phase),
{
    let extended = handles.push(handle);
    assert forall|i: int, j: int| 0 <= i < j < extended.len() implies (#[trigger] extended[i]).name@
        != (#[trigger] extended[j]).name@ by {
        if j == handles.len() {
            assert(at(handles, handles[i].name@, i));
            assert(as_registry(handles).contains_key(handles[i].name@));
        } else {
            assert(handles[i].name@ != handles[j].name@);
        }
    }
    let last = handles.len() as int;
    assert forall|name: Seq<char>|
        as_registry(extended).contains_key(name) <==> #[trigger] as_registry(handles).insert(
            handle.name@,
            handle.phase,
        ).contains_key(name) by {
        if as_registry(extended).contains_key(name) {
            let i = choose|i: int| at(extended, name, i);
            assert(at(extended, name, i));
            if i < last {
                assert(at(handles, name, i));
            }
        }
        if as_registry(handles).contains_key(name) {
            let i = choose|i: int| at(handles, name, i);
            assert(at(handles, name, i));
            assert(at(extended, name, i));
        }
        if name == handle.name@ {
            assert(at(extended, name, last));
        }
    }
    assert forall|name: Seq<char>| #[trigger]
        as_registry(extended).contains_key(name) implies as_registry(extended)[name]
        == as_registry(handles).insert(handle.name@, handle.phase)[name] by {
        let i = choose|i: int| at(extended, name, i);
        assert(at(extended, name, i));
        lemma_lookup(extended, i);
        if i < last {
            lemma_lookup(handles, i);
        }
    }
    assert(as_registry(extended) =~= as_registry(handles).insert(handle.name@, handle.phase));
}

proof fn lemma_update(handles: Seq<DeviceHandle>, i: int, handle: DeviceHandle)
    requires
        names_distinct(handles),
        0 <= i < handles.len(),
        handle.name@ == handles[i].name@,
    ensures
        names_distinct(handles.update(i, handle)),
        as_registry(handles.update(i, handle)) == as_registry(handles).insert(
            handle.name@,
            handle.phase,
        ),
{
    let updated = handles.update(i, handle);
    assert forall|a: int, b: int| 0 <= a < b < updated.len() implies (#[trigger] updated[a]).name@
        != (#[trigger] updated[b]).name@ by {
        assert(handles[a].name@ != handles[b].name@);
    }
    assert forall|name: Seq<char>|
        as_registry(updated).contains_key(name) <==> #[trigger] as_registry(handles).insert(
            handle.name@,
            handle.phase,
        ).contains_key(name) by {
        if as_registry(updated).contains_key(name) {
            let k = choose|k: int| at(updated, name, k);
            assert(at(updated, name, k));
            assert(at(handles, name, k));
        }
        if as_registry(handles).contains_key(name) {
            let k = choose|k: int| at(handles, name, k);
            assert(at(handles, name, k));
            assert(at(updated, name, k));
        }
        if name == handle.name@ {
            assert(at(updated, name, i));
        }
    }
    assert forall|name: Seq<char>| #[trigger]
        as_registry(updated).contains_key(name) implies as_registry(updated)[name] == as_registry(
        handles,
    ).insert(handle.name@, handle.phase)[name] by {
        let k = choose|k: int| at(updated, name, k);
        assert(at(updated, name, k));
        lemma_lookup(updated, k);
        lemma_lookup(handles, k);
    }
    assert(as_registry(updated) =~= as_registry(handles).insert(handle.name@, handle.phase));
}

proof fn lemma_remove(handles: Seq<DeviceHandle>, i: int)
    requires
        names_distinct(handles),
        0 <= i < handles.len(),
    ensures
        names_distinct(handles.remove(i)),
        as_registry(handles.remove(i)) == as_registry(handles).remove(handles[i].name@),
{
    let rest = handles.remove(i);
    let gone = handles[i].name@;
    assert forall|a: int, b: int| 0 <= a < b < rest.len() implies (#[trigger] rest[a]).name@ != (
    #[trigger] rest[b]).name@ by {
        let a0 = if a < i { a } else { a + 1 };
        let b0 = if b < i { b } else { b + 1 };
        assert(handles[a0].name@ != handles[b0].name@);
    }
    assert forall|name: Seq<char>|
        as_registry(rest).contains_key(name) <==> #[trigger] as_registry(handles).remove(
            gone,
        ).contains_key(name) by {
        if as_registry(rest).contains_key(name) {
            let k = choose|k: int| at(rest, name, k);
            assert(at(rest, name, k));
            let k0 = if k < i { k } else { k + 1 };
            assert(at(handles, name, k0));
            if k0 < i {
                assert(handles[k0].name@ != handles[i].name@);
            } else {
                assert(handles[i].name@ != handles[k0].name@);
            }
        }
        if as_registry(handles).contains_key(name) && name != gone {
            let k = choose|k: int| at(handles, name, k);
            assert(at(handles, name, k));
            let k1 = if k < i { k } else { k - 1 };
            assert(at(rest, name, k1));
        }
    }
    assert forall|name: Seq<char>| #[trigger]
        as_registry(rest).contains_key(name) implies as_registry(rest)[name] == as_registry(
        handles,
    ).remove(gone)[name] by {
        let k = choose|k: int| at(rest, name, k);
        assert(at(rest, name, k));
        let k0 = if k < i { k } else { k + 1 };
        lemma_lookup(rest, k);
        lemma_lookup(handles, k0);
    }
    assert(as_registry(rest) =~= as_registry(handles).remove(gone));
}

/// The device registry.
#[derive(Debug)]
pub struct DeviceManager {
    handles: Vec<DeviceHandle>,
}

impl View for DeviceManager {
    type V = Registry;

    closed spec fn view(&self) -> Registry {
        as_registry(self.handles@)
    }
}

impl DeviceManager {
    #[verifier::type_invariant]
    spec fn inv(self) -> bool {
        names_distinct(self.handles@)
    }

    /// A registry without devices.
    pub fn new() -> (registry: DeviceManager)
        ensures
            registry@ == Map::<Seq<char>, HandlePhase>::empty(),
    {
        let registry = DeviceManager { handles: Vec::new() };
        proof {
            assert(registry@ =~= Map::<Seq<char>, HandlePhase>::empty()) by {
                assert forall|name: Seq<char>| !registry@.contains_key(name) by {
                    lemma_absent(registry.handles@, name);
                }
            }
        }
        registry
    }

    /// Position of the handle of `name`.
    fn find(&self, name: &String) -> (found: Option<usize>)
        ensures
            match found {
                Some(i) => at(self.handles@, name@, i as int),
                None => !self@.contains_key(name@),
            },
    {
        let mut i: usize = 0;
        while i < self.handles.len()
            invariant
                i <= self.handles@.len(),
                forall|k: int| 0 <= k < i ==> (#[trigger] self.handles@[k]).name@ != name@,
            decreases self.handles@.len() - i,
        {
            if self.handles[i].name == *name {
                return Some(i);
            }
            i = i + 1;
        }
        proof {
            lemma_absent(self.handles@, name@);
        }
        None
    }

    /// Puts the handle of `name` into `phase`, entering one if there is none.
    fn put(&mut self, name: &String, phase: HandlePhase)
        ensures
            final(self)@ == old(self)@.insert(name@, phase),
    {
        proof {
            use_type_invariant(&*self);
        }
        let handle = DeviceHandle { name: name.clone(), phase };
        let found = self.find(name);
        let mut handles: Vec<DeviceHandle> = Vec::new();
        core::mem::swap(&mut self.handles, &mut handles);
        match found {
            Some(i) => {
                proof {
                    lemma_update(handles@, i as int, handle);
                }
                handles.set(i, handle);
            },
            None => {
                proof {
                    lemma_push(handles@, handle);
                }
                handles.push(handle);
            },
        }
        core::mem::swap(&mut self.handles, &mut handles);
    }

    /// Removes the handle of `name`, if there is one.
    fn evict(&mut self, name: &String)
        ensures
            final(self)@ == old(self)@.remove(name@),
    {
        proof {
            use_type_invariant(&*self);
        }
        match self.find(name) {
            Some(i) => {
                let mut handles: Vec<DeviceHandle> = Vec::new();
                core::mem::swap(&mut self.handles, &mut handles);
                proof {
                    lemma_remove(handles@, i as int);
                }
                handles.remove(i);
                core::mem::swap(&mut self.handles, &mut handles);
            },
            None => {
                proof {
                    assert(self@.remove(name@) =~= self@);
                }
            },
        }
    }

    /// The phase of the handle of `device_name`, if the device has one.
    pub fn phase(&self, device_name: &str) -> (phase: Option<HandlePhase>)
        ensures
            match phase {
                Some(p) => self@.contains_key(device_name@) && self@[device_name@] == p,
                None => !self@.contains_key(device_name@),
            },
    {
        proof {
            use_type_invariant(self);
        }
        let name = device_name.to_owned();
        match self.find(&name) {
            Some(i) => {
                proof {
                    lemma_lookup(self.handles@, i as int);
                }
                Some(self.handles[i].phase)
            },
            None => None,
        }
    }

    /// The handle of `device_name`, if the device has one.
    pub fn handle(&self, device_name: &str) -> (handle: Option<&DeviceHandle>)
        ensures
            match handle {
                Some(h) => h.device() == device_name@ && self@.contains_key(device_name@)
                    && self@[device_name@] == h.standing(),
                None => !self@.contains_key(device_name@),
            },
    {
        proof {
            use_type_invariant(self);
        }
        let name = device_name.to_owned();
        match self.find(&name) {
            Some(i) => {
                proof {
                    lemma_lookup(self.handles@, i as int);
                }
                Some(&self.handles[i])
            },
            None => None,
        }
    }

    /// Number of devices that have a handle.
    pub fn len(&self) -> (count: usize)
        ensures
            count == self@.dom().len(),
            self@.dom().finite(),
    {
        proof {
            use_type_invariant(self);
            lemma_count(self.handles@);
        }
        self.handles.len()
    }

    /// Asks for the handle of `device_name` on behalf of one request, creating it on
    /// first use.
    pub fn get_or_create(&mut self, device_name: &str) -> (acquired: Acquired)
        ensures
            (final(self)@, acquired) == acquire(old(self)@, device_name@),
    {
        let name = device_name.to_owned();
        match self.phase(device_name) {
            None => {
                self.put(&name, HandlePhase::Opening);
                Acquired::MustOpen
            },
            Some(HandlePhase::Idle) => {
                self.put(&name, HandlePhase::Busy);
                Acquired::Ready
            },
            Some(_) => Acquired::Held,
        }
    }

    /// Begins the delivery of `command` to `device_name`.
    pub fn dispatch(&mut self, device_name: String, command: AxisCommand) -> (step: DeviceStep)
        ensures
            (final(self)@, step@) == begin(old(self)@, device_name@, command),
    {
        match self.get_or_create(device_name.as_str()) {
            Acquired::MustOpen => DeviceStep::Open { name: device_name, command },
            Acquired::Ready => DeviceStep::Port {
                name: device_name,
                exchange: SerialExchange::Write(command.encode()),
            },
            Acquired::Held => DeviceStep::Wait,
        }
    }

    /// Begins a move of the device `device_name` to the angles `x` and `y`, each limited
    /// to the range of an axis. The request is over when a step `Done` is reached, and it
    /// succeeded if that step holds `Ok`.
    pub fn set_servo_position(&mut self, device_name: String, x: Option<u8>, y: Option<u8>) -> (step:
        DeviceStep)
        ensures
            (final(self)@, step@) == begin(old(self)@, device_name@, AxisCommand::clamped(x, y)),
    {
        self.dispatch(device_name, AxisCommand::new(x, y))
    }

    /// Begins a liveness probe of the device `device_name`: a move to the neutral angle,
    /// which does no harm however often it is made. [`DeviceManager::liveness`] reads the
    /// result of the finished request.
    pub fn check_device_status(&mut self, device_name: String) -> (step: DeviceStep)
        ensures
            (final(self)@, step@) == begin(old(self)@, device_name@, probe_command()),
    {
        self.dispatch(device_name, AxisCommand { x: Some(NEUTRAL_ANGLE), y: None })
    }

    /// Takes the outcome of what `step` asked for and decides what follows.
    pub fn advance(&mut self, step: DeviceStep, outcome: IoOutcome) -> (next: DeviceStep)
        ensures
            (final(self)@, next@) == proceed(old(self)@, step@, outcome@),
    {
        match step {
            DeviceStep::Open { name, command } => match outcome {
                IoOutcome::Done(_) => {
                    self.put(&name, HandlePhase::Busy);
                    DeviceStep::Port { name, exchange: SerialExchange::Write(command.encode()) }
                },
                IoOutcome::TimedOut => {
                    self.evict(&name);
                    DeviceStep::Done(
                        Err(DeviceError::Unavailable(name, "timed out".to_owned())),
                    )
                },
                IoOutcome::Failed(reason) => {
                    self.evict(&name);
                    DeviceStep::Done(Err(DeviceError::Unavailable(name, reason)))
                },
            },
            DeviceStep::Port { name, exchange } => match exchange.advance(outcome) {
                SerialExchange::Done(result) => {
                    if self.phase(name.as_str()).is_some() {
                        self.put(&name, HandlePhase::Idle);
                    }
                    DeviceStep::Done(result)
                },
                next => DeviceStep::Port { name, exchange: next },
            },
            DeviceStep::Wait => DeviceStep::Wait,
            DeviceStep::Done(result) => DeviceStep::Done(result),
        }
    }

    /// Reads the result of a finished liveness probe.
    pub fn liveness(result: Result<AckReport, DeviceError>) -> (verdict: Result<bool, DeviceError>)
        ensures
            match verdict {
                Ok(alive) => probe_verdict(result_view(result)) == Ok::<bool, DeviceErrorView>(
                    alive,
                ),
                Err(e) => probe_verdict(result_view(result)) == Err::<bool, DeviceErrorView>(e@),
            },
    {
        match result {
            Ok(_) => Ok(true),
            Err(DeviceError::Unavailable(name, reason)) => Err(
                DeviceError::Unavailable(name, reason),
            ),
            Err(_) => Ok(false),
        }
    }
}

/// Mathematical model of the result of a request.
pub open spec fn result_view(result: Result<AckReport, DeviceError>) -> Result<
    AckReportView,
    DeviceErrorView,
> {
    match result {
        Ok(report) => Ok(report@),
        Err(e) => Err(e@),
    }
}

proof fn lemma_count(handles: Seq<DeviceHandle>)
    requires
        names_distinct(handles),
    ensures
        as_registry(handles).dom().finite(),
        as_registry(handles).dom().len() == handles.len(),
    decreases handles.len(),
{
    if handles.len() == 0 {
        assert(as_registry(handles).dom() =~= Set::<Seq<char>>::empty()) by {
            assert forall|name: Seq<char>| !as_registry(handles).contains_key(name) by {
                lemma_absent(handles, name);
            }
        }
    } else {
        let rest = handles.drop_last();
        let handle = handles.last();
        assert(names_distinct(rest)) by {
            assert forall|i: int, j: int| 0 <= i < j < rest.len() implies (#[trigger] rest[i]).name@
                != (#[trigger] rest[j]).name@ by {
                assert(handles[i].name@ != handles[j].name@);
            }
        }
        lemma_count(rest);
        assert(!as_registry(rest).contains_key(handle.name@)) by {
            assert forall|i: int| 0 <= i < rest.len() implies (#[trigger] rest[i]).name@
                != handle.name@ by {
                assert(handles[i].name@ != handles[handles.len() - 1].name@);
            }
            lemma_absent(rest, handle.name@);
        }
        lemma_push(rest, handle);
        assert(rest.push(handle) =~= handles);
        assert(as_registry(handles).dom() =~= as_registry(rest).dom().insert(handle.name@));
    }
}

/// A call of the registry, as far as its effect on the registry goes.
pub enum RegistryCall {
    /// A request to deliver `command` to `name` is made.
    Begin { name: Seq<char>, command: AxisCommand },
    /// The outcome of what `step` asked for is reported.
    Proceed { step: DeviceStepView, outcome: IoOutcomeView },
}

impl RegistryCall {
    /// The registry after the call, and the step that the call returns.
    pub open spec fn result(self, registry: Registry) -> (Registry, DeviceStepView) {
        match self {
            RegistryCall::Begin { name, command } => begin(registry, name, command),
            RegistryCall::Proceed { step, outcome } => proceed(registry, step, outcome),
        }
    }

    /// Whether the call answers that the transport of `name` is to be opened.
    pub open spec fn asks_to_open(self, registry: Registry, name: Seq<char>) -> bool {
        self.result(registry).1 matches DeviceStepView::Open { name: opened, .. } && opened == name
    }

    /// Whether the call reports that the transport of `name` could not be opened.
    pub open spec fn reports_failed_open(self, name: Seq<char>) -> bool {
        self matches RegistryCall::Proceed {
            step: DeviceStepView::Open { name: opened, .. },
            outcome,
        } && opened == name && !(outcome is Done)
    }

    /// Whether the call gives the device `name` to the request that makes it: the request
    /// is told to open the transport, or to use the open one.
    pub open spec fn takes(self, registry: Registry, name: Seq<char>) -> bool {
        self matches RegistryCall::Begin { name: wanted, .. } && wanted == name && !(
        self.result(registry).1 is Wait)
    }

    /// Whether the call ends a request that had the device `name`.
    pub open spec fn gives_back(self, registry: Registry, name: Seq<char>) -> bool {
        &&& self.result(registry).1 is Done
        &&& match self {
            RegistryCall::Proceed { step: DeviceStepView::Open { name: held, .. }, .. } => held
                == name,
            RegistryCall::Proceed { step: DeviceStepView::Port { name: held, .. }, .. } => held
                == name,
            _ => false,
        }
    }
}

/// The registry after a sequence of calls.
pub open spec fn after_calls(registry: Registry, calls: Seq<RegistryCall>) -> Registry
    decreases calls.len(),
{
    if calls.len() == 0 {
        registry
    } else {
        after_calls(calls[0].result(registry).0, calls.drop_first())
    }
}

/// How many of a sequence of calls, made one after the other from `registry`, satisfy
/// `counted`, which is given the registry that the call meets and the call.
pub open spec fn count_calls(
    registry: Registry,
    calls: Seq<RegistryCall>,
    counted: spec_fn(Registry, RegistryCall) -> bool,
) -> nat
    decreases calls.len(),
{
    if calls.len() == 0 {
        0
    } else {
        (if counted(registry, calls[0]) {
            1nat
        } else {
            0nat
        }) + count_calls(calls[0].result(registry).0, calls.drop_first(), counted)
    }
}

/// Whether no request has the device `name`: it has no handle, or an idle one.
pub open spec fn is_free(registry: Registry, name: Seq<char>) -> bool {
    !registry.contains_key(name) || registry[name] == HandlePhase::Idle
}

/// Two requests for one device, made one after the other before the transport is open,
/// lead to one transport: the second request is never told to open it, and while the
/// first request has the device the second is told to wait.
pub proof fn lemma_second_request_opens_nothing(registry: Registry, name: Seq<char>)
    ensures
        acquire(acquire(registry, name).0, name).1 != Acquired::MustOpen,
        acquire(registry, name).1 != Acquired::Held ==> acquire(acquire(registry, name).0, name)
            == (acquire(registry, name).0, Acquired::Held),
{
}

/// Whatever calls are made in whatever order, a device has at most one transport: the
/// registry asks for the transport of a device to be opened at most once more than such
/// an opening has failed, and not even once more if the device has a handle already.
pub proof fn lemma_one_transport_per_device(
    registry: Registry,
    calls: Seq<RegistryCall>,
    name: Seq<char>,
)
    ensures
        count_calls(registry, calls, |r: Registry, c: RegistryCall| c.asks_to_open(r, name))
            <= count_calls(registry, calls, |r: Registry, c: RegistryCall| c.reports_failed_open(name))
            + if registry.contains_key(name) {
            0nat
        } else {
            1nat
        },
    decreases calls.len(),
{
    if calls.len() > 0 {
        lemma_one_transport_per_device(calls[0].result(registry).0, calls.drop_first(), name);
    }
}

/// Whatever calls are made in whatever order, one request at a time has a device: the
/// device is given to a request at most once more than a request has given it back, and
/// not even once more while a request has it. So the input/output of two requests on one
/// device never interleaves.
pub proof fn lemma_one_request_per_device(
    registry: Registry,
    calls: Seq<RegistryCall>,
    name: Seq<char>,
)
    ensures
        count_calls(registry, calls, |r: Registry, c: RegistryCall| c.takes(r, name))
            <= count_calls(registry, calls, |r: Registry, c: RegistryCall| c.gives_back(r, name))
            + if is_free(registry, name) {
            1nat
        } else {
            0nat
        },
    decreases calls.len(),
{
    if calls.len() > 0 {
        lemma_one_request_per_device(calls[0].result(registry).0, calls.drop_first(), name);
    }
}

/// A transport that could not be opened leaves no handle behind, and the request after it
/// starts from nothing: it is told to open the transport again.
pub proof fn lemma_failed_open_is_not_kept(
    registry: Registry,
    name: Seq<char>,
    command: AxisCommand,
    outcome: IoOutcomeView,
    again: AxisCommand,
)
    requires
        !(outcome is Done),
    ensures
        !proceed(registry, DeviceStepView::Open { name, command }, outcome).0.contains_key(name),
        proceed(registry, DeviceStepView::Open { name, command }, outcome).1 matches DeviceStepView::Done(
            Err(DeviceErrorView::Unavailable(device, _)),
        ) && device == name,
        begin(
            proceed(registry, DeviceStepView::Open { name, command }, outcome).0,
            name,
            again,
        ).1 == (DeviceStepView::Open { name, command: again }),
{
}

/// A handle, once its transport is open, stays in the registry whatever becomes of the
/// deliveries made through it.
pub proof fn lemma_open_handle_is_kept(
    registry: Registry,
    name: Seq<char>,
    exchange: SerialExchangeView,
    outcome: IoOutcomeView,
)
    requires
        registry.contains_key(name),
    ensures
        proceed(registry, DeviceStepView::Port { name, exchange }, outcome).0.contains_key(name),
{
}

/// Whatever calls are made in whatever order, a device that has a handle keeps it as
/// long as no opening of its transport is reported as failed.
pub proof fn lemma_handle_outlives_requests(
    registry: Registry,
    calls: Seq<RegistryCall>,
    name: Seq<char>,
)
    requires
        registry.contains_key(name),
        count_calls(registry, calls, |r: Registry, c: RegistryCall| c.reports_failed_open(name))
            == 0,
    ensures
        after_calls(registry, calls).contains_key(name),
    decreases calls.len(),
{
    if calls.len() > 0 {
        lemma_handle_outlives_requests(calls[0].result(registry).0, calls.drop_first(), name);
    }
}

/// A request that was given a device ends after four outcomes at most (of the opening,
/// the write, the flush and the read), and when it has ended the device is free for the
/// next request, whatever the result.
pub proof fn lemma_request_ends_and_frees_the_device(
    registry: Registry,
    name: Seq<char>,
    command: AxisCommand,
    opened: IoOutcomeView,
    written: IoOutcomeView,
    flushed: IoOutcomeView,
    answered: IoOutcomeView,
)
    requires
        !(begin(registry, name, command).1 is Wait),
    ensures
        ({
            let (r0, s0) = begin(registry, name, command);
            let (r1, s1) = proceed(r0, s0, opened);
            let (r2, s2) = proceed(r1, s1, written);
            let (r3, s3) = proceed(r2, s2, flushed);
            let (r4, s4) = proceed(r3, s3, answered);
            s4 is Done && is_free(r4, name)
        }),
{
}

} // verus!
