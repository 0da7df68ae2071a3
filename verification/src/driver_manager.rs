//! Device driver management: the list of registered drivers, and their
//! bring-up in two phases.
//!
//! Phase one initializes every driver, in registration order, and runs the
//! driver's post-init callback where it has one. Phase two begins when phase
//! one is complete for all drivers: every driver with an interrupt number
//! then registers and enables its handler. A driver that is itself the
//! interrupt manager becomes reachable in its post-init callback, so that
//! in phase two every driver finds it.

use crate::exception::asynchronous::Daif;
use crate::state::StateManager;
use crate::synchronization::{write_permitted, InitStateLock, ReadWriteEx};
use vstd::prelude::*;

verus! {

/// The number of drivers that can be registered.
pub const NUM_DRIVERS: usize = 5;

/// Device Driver functions. `T` is the type of an interrupt number.
pub trait DeviceDriver<T>: Sync {
    /// Return a compatibility string for identifying the driver.
    fn compatible(&self) -> &'static str;

    /// Called by the kernel to bring up the device. A driver with nothing to
    /// bring up leaves it at this.
    fn init(&self) -> (r: Result<(), &'static str>)
        default_ensures
            r == Ok::<(), &'static str>(()),
    {
        Ok(())
    }

    /// Called by the kernel to register and enable the device's IRQ handler.
    /// A driver that handles no interrupt leaves it at this, which is an
    /// error: such a driver is registered without an interrupt number.
    fn register_and_enable_irq_handler(&'static self, irq_number: &T) -> (r: Result<
        (),
        &'static str,
    >)
        default_ensures
            r == Err::<(), &'static str>(irq_not_supported()),
    {
        Err("Attempt to enable an IRQ for a device whose driver does not support this")
    }
}

/// The message of a driver that is asked to handle an interrupt and cannot.
pub open spec fn irq_not_supported() -> &'static str {
    "Attempt to enable an IRQ for a device whose driver does not support this"
}

/// A callback that runs after a driver's `init`.
pub trait DeviceDriverPostInitCallback: Sync {
    /// Runs the callback.
    fn call(&self) -> Result<(), &'static str>;
}

/// A reference to a device driver.
pub type DeviceDriverRef<T> = &'static dyn DeviceDriver<T>;

/// A reference to a post-init callback.
pub type PostInitCallbackRef = &'static dyn DeviceDriverPostInitCallback;

/// A descriptor for device drivers.
#[derive(Clone, Copy)]
#[verifier::reject_recursive_types(T)]
pub struct DeviceDriverDescriptor<T: 'static> {
    device_driver: DeviceDriverRef<T>,
    post_init_callback: Option<PostInitCallbackRef>,
    irq_number: Option<T>,
}

impl<T> DeviceDriverDescriptor<T> {
    /// Whether the driver has a post-init callback.
    pub closed spec fn has_post_init_callback(&self) -> bool {
        self.post_init_callback.is_some()
    }

    /// The driver's interrupt number, where it has one.
    pub closed spec fn spec_irq_number(&self) -> Option<T> {
        self.irq_number
    }

    /// Create an instance.
    pub fn new(
        device_driver: DeviceDriverRef<T>,
        post_init_callback: Option<PostInitCallbackRef>,
        irq_number: Option<T>,
    ) -> (r: Self)
        ensures
            r.has_post_init_callback() == post_init_callback.is_some(),
            r.spec_irq_number() == irq_number,
    {
        Self { device_driver, post_init_callback, irq_number }
    }
}

/// One call of the bring-up, to the driver with the given place in the
/// order of registration.
#[derive(Copy, Clone, Debug, PartialEq, Eq)]
pub enum BringUpStep {
    /// The driver's `init`.
    Init(usize),
    /// The driver's post-init callback.
    PostInit(usize),
    /// The driver's `register_and_enable_irq_handler`.
    RegisterIrqHandler(usize),
}

/// A call of the bring-up that failed. Bring-up ends with it.
#[derive(Copy, Clone, Debug, PartialEq, Eq)]
pub struct BringUpError {
    /// The call that failed.
    pub step: BringUpStep,
    /// The driver's compatibility string.
    pub compatible: &'static str,
    /// The error that the call returned.
    pub message: &'static str,
}

impl BringUpStep {
    /// The place of the step's driver in the order of registration.
    pub open spec fn driver(&self) -> usize {
        match *self {
            BringUpStep::Init(i) => i,
            BringUpStep::PostInit(i) => i,
            BringUpStep::RegisterIrqHandler(i) => i,
        }
    }

    /// Whether the step belongs to phase one.
    pub open spec fn in_phase_one(&self) -> bool {
        !(*self is RegisterIrqHandler)
    }
}

/// The calls of phase one for the first `n` drivers: for each driver in
/// turn its `init`, then its post-init callback where it has one.
pub open spec fn phase_one<T>(descriptors: Seq<DeviceDriverDescriptor<T>>, n: int) -> Seq<
    BringUpStep,
>
    decreases n,
{
    if n <= 0 {
        Seq::empty()
    } else if descriptors[n - 1].has_post_init_callback() {
        phase_one(descriptors, n - 1).push(BringUpStep::Init((n - 1) as usize)).push(
            BringUpStep::PostInit((n - 1) as usize),
        )
    } else {
        phase_one(descriptors, n - 1).push(BringUpStep::Init((n - 1) as usize))
    }
}

/// The calls of phase two for the first `n` drivers: for each driver with
/// an interrupt number, in turn, the registration of its handler.
pub open spec fn phase_two<T>(descriptors: Seq<DeviceDriverDescriptor<T>>, n: int) -> Seq<
    BringUpStep,
>
    decreases n,
{
    if n <= 0 {
        Seq::empty()
    } else if descriptors[n - 1].spec_irq_number().is_some() {
        phase_two(descriptors, n - 1).push(BringUpStep::RegisterIrqHandler((n - 1) as usize))
    } else {
        phase_two(descriptors, n - 1)
    }
}

/// The calls of the bring-up, in their order: all of phase one, then all of
/// phase two.
pub open spec fn bring_up_plan<T>(descriptors: Seq<DeviceDriverDescriptor<T>>) -> Seq<BringUpStep> {
    phase_one(descriptors, descriptors.len() as int) + phase_two(
        descriptors,
        descriptors.len() as int,
    )
}

/// Phase one for the first `n` drivers holds only calls of phase one, to
/// drivers among these; a post-init callback is called only where there is
/// one; the drivers come in the order of registration, and for one driver
/// `init` comes before the callback.
pub proof fn lemma_phase_one<T>(descriptors: Seq<DeviceDriverDescriptor<T>>, n: int)
    requires
        0 <= n <= descriptors.len(),
        n <= usize::MAX,
    ensures
        forall|k: int|
            0 <= k < phase_one(descriptors, n).len() ==> {
                let step = #[trigger] phase_one(descriptors, n)[k];
                &&& step.in_phase_one()
                &&& step.driver() < n
                &&& step is PostInit ==> descriptors[step.driver() as int].has_post_init_callback()
            },
        forall|a: int, b: int|
            0 <= a < b < phase_one(descriptors, n).len() ==> {
                let first = #[trigger] phase_one(descriptors, n)[a];
                let second = #[trigger] phase_one(descriptors, n)[b];
                first.driver() < second.driver() || (first.driver() == second.driver()
                    && first is Init && second is PostInit)
            },
        forall|i: int|
            0 <= i < n ==> #[trigger] phase_one(descriptors, n).contains(
                BringUpStep::Init(i as usize),
            ),
        forall|i: int|
            0 <= i < n && descriptors[i].has_post_init_callback() ==> #[trigger] phase_one(
                descriptors,
                n,
            ).contains(BringUpStep::PostInit(i as usize)),
    decreases n,
{
    if n > 0 {
        lemma_phase_one(descriptors, n - 1);
        let shorter = phase_one(descriptors, n - 1);
        let longer = phase_one(descriptors, n);
        let init = BringUpStep::Init((n - 1) as usize);
        let callback = BringUpStep::PostInit((n - 1) as usize);
        assert(longer[shorter.len() as int] == init);
        if descriptors[n - 1].has_post_init_callback() {
            assert(longer[shorter.len() as int + 1] == callback);
        }
        assert forall|k: int| 0 <= k < longer.len() implies {
            let step = #[trigger] longer[k];
            &&& step.in_phase_one()
            &&& step.driver() < n
            &&& step is PostInit ==> descriptors[step.driver() as int].has_post_init_callback()
        } by {
            if k < shorter.len() {
                assert(longer[k] == shorter[k]);
            }
        }
        assert forall|a: int, b: int| 0 <= a < b < longer.len() implies {
            let first = #[trigger] longer[a];
            let second = #[trigger] longer[b];
            first.driver() < second.driver() || (first.driver() == second.driver() && first is Init
                && second is PostInit)
        } by {
            if a < shorter.len() {
                assert(longer[a] == shorter[a]);
            }
            if b < shorter.len() {
                assert(longer[b] == shorter[b]);
            }
        }
        assert forall|i: int| 0 <= i < n implies #[trigger] longer.contains(
            BringUpStep::Init(i as usize),
        ) by {
            if i < n - 1 {
                let step = BringUpStep::Init(i as usize);
                assert(shorter.contains(step));
                let k = choose|k: int| 0 <= k < shorter.len() && shorter[k] == step;
                assert(longer[k] == BringUpStep::Init(i as usize));
            }
        }
        assert forall|i: int|
            0 <= i < n && descriptors[i].has_post_init_callback() implies #[trigger] longer.contains(
            BringUpStep::PostInit(i as usize),
        ) by {
            if i < n - 1 {
                let step = BringUpStep::PostInit(i as usize);
                assert(shorter.contains(step));
                let k = choose|k: int| 0 <= k < shorter.len() && shorter[k] == step;
                assert(longer[k] == BringUpStep::PostInit(i as usize));
            }
        }
    }
}

/// Phase two for the first `n` drivers holds only registrations of
/// handlers, for drivers among these that have an interrupt number, in the
/// order of registration, and one for each such driver.
pub proof fn lemma_phase_two<T>(descriptors: Seq<DeviceDriverDescriptor<T>>, n: int)
    requires
        0 <= n <= descriptors.len(),
        n <= usize::MAX,
    ensures
        forall|k: int|
            0 <= k < phase_two(descriptors, n).len() ==> {
                let step = #[trigger] phase_two(descriptors, n)[k];
                &&& step is RegisterIrqHandler
                &&& step.driver() < n
                &&& descriptors[step.driver() as int].spec_irq_number().is_some()
            },
        forall|a: int, b: int|
            0 <= a < b < phase_two(descriptors, n).len() ==> (#[trigger] phase_two(
                descriptors,
                n,
            )[a]).driver() < (#[trigger] phase_two(descriptors, n)[b]).driver(),
        forall|i: int|
            0 <= i < n && descriptors[i].spec_irq_number().is_some() ==> #[trigger] phase_two(
                descriptors,
                n,
            ).contains(BringUpStep::RegisterIrqHandler(i as usize)),
    decreases n,
{
    if n > 0 {
        lemma_phase_two(descriptors, n - 1);
        let shorter = phase_two(descriptors, n - 1);
        let longer = phase_two(descriptors, n);
        if descriptors[n - 1].spec_irq_number().is_some() {
            assert(longer[shorter.len() as int] == BringUpStep::RegisterIrqHandler(
                (n - 1) as usize,
            ));
        }
        assert forall|k: int| 0 <= k < longer.len() implies {
            let step = #[trigger] longer[k];
            &&& step is RegisterIrqHandler
            &&& step.driver() < n
            &&& descriptors[step.driver() as int].spec_irq_number().is_some()
        } by {
            if k < shorter.len() {
                assert(longer[k] == shorter[k]);
            }
        }
        assert forall|a: int, b: int| 0 <= a < b < longer.len() implies (#[trigger] longer[a]).driver()
            < (#[trigger] longer[b]).driver() by {
            if a < shorter.len() {
                assert(longer[a] == shorter[a]);
            }
            if b < shorter.len() {
                assert(longer[b] == shorter[b]);
            }
        }
        assert forall|i: int|
            0 <= i < n && descriptors[i].spec_irq_number().is_some() implies #[trigger] longer.contains(
            BringUpStep::RegisterIrqHandler(i as usize),
        ) by {
            if i < n - 1 {
                let step = BringUpStep::RegisterIrqHandler(i as usize);
                assert(shorter.contains(step));
                let k = choose|k: int| 0 <= k < shorter.len() && shorter[k] == step;
                assert(longer[k] == BringUpStep::RegisterIrqHandler(i as usize));
            }
        }
    }
}

/// In the bring-up, phase one is complete for all drivers before phase two
/// begins: no call of phase one comes after a registration of a handler.
/// Within phase one the drivers come in the order of registration, each
/// with `init` before its post-init callback; within phase two in the
/// order of registration.
pub proof fn law_phase_one_completes_before_phase_two<T>(
    descriptors: Seq<DeviceDriverDescriptor<T>>,
    a: int,
    b: int,
)
    requires
        descriptors.len() <= usize::MAX,
        0 <= a < b < bring_up_plan(descriptors).len(),
    ensures
        bring_up_plan(descriptors)[b].in_phase_one() ==> bring_up_plan(
            descriptors,
        )[a].in_phase_one(),
        bring_up_plan(descriptors)[a].in_phase_one() && bring_up_plan(
            descriptors,
        )[b].in_phase_one() ==> {
            ||| bring_up_plan(descriptors)[a].driver() < bring_up_plan(descriptors)[b].driver()
            ||| (bring_up_plan(descriptors)[a].driver() == bring_up_plan(descriptors)[b].driver()
                && bring_up_plan(descriptors)[a] is Init && bring_up_plan(
                descriptors,
            )[b] is PostInit)
        },
        !bring_up_plan(descriptors)[a].in_phase_one() ==> bring_up_plan(descriptors)[a].driver()
            < bring_up_plan(descriptors)[b].driver(),
{
    let n = descriptors.len() as int;
    lemma_phase_one(descriptors, n);
    lemma_phase_two(descriptors, n);
    let one = phase_one(descriptors, n);
    let two = phase_two(descriptors, n);
    let plan = bring_up_plan(descriptors);
    if a < one.len() {
        assert(plan[a] == one[a]);
    } else {
        assert(plan[a] == two[a - one.len()]);
    }
    if b < one.len() {
        assert(plan[b] == one[b]);
    } else {
        assert(plan[b] == two[b - one.len()]);
    }
}

/// The bring-up calls every driver: `init` for each, the post-init callback
/// for each driver that has one, and the registration of a handler for each
/// driver that has an interrupt number; and it calls nothing else.
pub proof fn law_bring_up_calls_every_driver<T>(descriptors: Seq<DeviceDriverDescriptor<T>>)
    requires
        descriptors.len() <= usize::MAX,
    ensures
        forall|i: int|
            0 <= i < descriptors.len() ==> #[trigger] bring_up_plan(descriptors).contains(
                BringUpStep::Init(i as usize),
            ),
        forall|i: int|
            0 <= i < descriptors.len() && descriptors[i].has_post_init_callback()
                ==> #[trigger] bring_up_plan(descriptors).contains(
                BringUpStep::PostInit(i as usize),
            ),
        forall|i: int|
            0 <= i < descriptors.len() && descriptors[i].spec_irq_number().is_some()
                ==> #[trigger] bring_up_plan(descriptors).contains(
                BringUpStep::RegisterIrqHandler(i as usize),
            ),
        forall|k: int|
            0 <= k < bring_up_plan(descriptors).len() ==> {
                let step = #[trigger] bring_up_plan(descriptors)[k];
                &&& step.driver() < descriptors.len()
                &&& step is PostInit ==> descriptors[step.driver() as int].has_post_init_callback()
                &&& step is RegisterIrqHandler ==> descriptors[step.driver() as int].spec_irq_number().is_some()
            },
{
    let n = descriptors.len() as int;
    lemma_phase_one(descriptors, n);
    lemma_phase_two(descriptors, n);
    let one = phase_one(descriptors, n);
    let two = phase_two(descriptors, n);
    let plan = bring_up_plan(descriptors);
    assert forall|i: int| 0 <= i < descriptors.len() implies #[trigger] plan.contains(
        BringUpStep::Init(i as usize),
    ) by {
        let step = BringUpStep::Init(i as usize);
        assert(one.contains(step));
        let k = choose|k: int| 0 <= k < one.len() && one[k] == step;
        assert(plan[k] == one[k]);
    }
    assert forall|i: int|
        0 <= i < descriptors.len() && descriptors[i].has_post_init_callback() implies #[trigger] plan.contains(
        BringUpStep::PostInit(i as usize),
    ) by {
        let step = BringUpStep::PostInit(i as usize);
        assert(one.contains(step));
        let k = choose|k: int| 0 <= k < one.len() && one[k] == step;
        assert(plan[k] == one[k]);
    }
    assert forall|i: int|
        0 <= i < descriptors.len() && descriptors[i].spec_irq_number().is_some() implies #[trigger] plan.contains(
        BringUpStep::RegisterIrqHandler(i as usize),
    ) by {
        let step = BringUpStep::RegisterIrqHandler(i as usize);
        assert(two.contains(step));
        let k = choose|k: int| 0 <= k < two.len() && two[k] == step;
        assert(plan[one.len() as int + k] == two[k]);
    }
    assert forall|k: int| 0 <= k < plan.len() implies {
        let step = #[trigger] plan[k];
        &&& step.driver() < descriptors.len()
        &&& step is PostInit ==> descriptors[step.driver() as int].has_post_init_callback()
        &&& step is RegisterIrqHandler ==> descriptors[step.driver() as int].spec_irq_number().is_some()
    } by {
        if k < one.len() {
            assert(plan[k] == one[k]);
        } else {
            assert(plan[k] == two[k - one.len()]);
        }
    }
}

/// The text of a line of the list of drivers: the number, a dot and the
/// driver's compatibility string.
pub uninterp spec fn enumeration_line_text(number: usize, compatible: Seq<char>) -> Seq<char>;

/// `format!` with the pattern of a line of the list of drivers.
#[verifier::external_body]
fn format_enumeration_line(number: usize, compatible: &str) -> (r: String)
    ensures
        r@ == enumeration_line_text(number, compatible@),
{
    format!("        {}. {}", number, compatible)
}

/// A line of the list of drivers.
pub fn enumeration_line(entry: &(usize, &'static str)) -> (r: String)
    ensures
        r@ == enumeration_line_text(entry.0, entry.1@),
{
    format_enumeration_line(entry.0, entry.1)
}

/// The message of a registration beyond the capacity of the list.
pub open spec fn capacity_exceeded() -> &'static str {
    "No room for another device driver"
}

/// What a call of the bring-up comes to, by what the driver returned: the
/// bring-up goes on after success, and ends with the driver's error.
pub open spec fn step_result(
    step: BringUpStep,
    compatible: &'static str,
    result: Result<(), &'static str>,
) -> Result<(), BringUpError> {
    match result {
        Ok(()) => Ok(()),
        Err(message) => Err(BringUpError { step, compatible, message }),
    }
}

/// Decides what a call of the bring-up comes to, by what the driver
/// returned.
pub fn step_outcome(step: BringUpStep, compatible: &'static str, result: Result<(), &'static str>) -> (r:
    Result<(), BringUpError>)
    ensures
        r == step_result(step, compatible, result),
{
    match result {
        Ok(()) => Ok(()),
        Err(message) => Err(BringUpError { step, compatible, message }),
    }
}

/// The list of registered drivers: the descriptors fill the array from its
/// start, in the order of registration.
#[derive(Clone, Copy)]
#[verifier::reject_recursive_types(T)]
pub struct DriverManagerInner<T: 'static> {
    next_index: usize,
    descriptors: [Option<DeviceDriverDescriptor<T>>; 5],
}

impl<T: Copy> DriverManagerInner<T> {
    /// The registered descriptors fill the array from its start.
    pub closed spec fn wf(&self) -> bool {
        &&& self.next_index <= NUM_DRIVERS
        &&& forall|i: int| 0 <= i < self.next_index ==> (#[trigger] self.descriptors@[i]).is_some()
        &&& forall|i: int|
            self.next_index <= i < NUM_DRIVERS ==> (#[trigger] self.descriptors@[i]).is_none()
    }

    /// The registered descriptors, in the order of registration.
    pub closed spec fn registered(&self) -> Seq<DeviceDriverDescriptor<T>> {
        Seq::new(self.next_index as nat, |i: int| self.descriptors@[i].unwrap())
    }

    /// Create an instance, with no driver.
    pub fn new() -> (r: Self)
        ensures
            r.wf(),
            r.registered().len() == 0,
    {
        Self { next_index: 0, descriptors: [None;5] }
    }

    /// Adds a descriptor at the end of the list, if there is room.
    pub fn push(&mut self, descriptor: DeviceDriverDescriptor<T>) -> (r: Result<(), &'static str>)
        requires
            old(self).wf(),
        ensures
            final(self).wf(),
            if old(self).registered().len() < NUM_DRIVERS {
                &&& r == Ok::<(), &'static str>(())
                &&& final(self).registered() == old(self).registered().push(descriptor)
            } else {
                &&& r == Err::<(), &'static str>(capacity_exceeded())
                &&& final(self).registered() == old(self).registered()
            },
    {
        if self.next_index >= NUM_DRIVERS {
            return Err("No room for another device driver");
        }
        self.descriptors[self.next_index] = Some(descriptor);
        self.next_index += 1;
        assert(self.registered() =~= old(self).registered().push(descriptor));
        Ok(())
    }

    /// The number of registered drivers.
    pub fn len(&self) -> (r: usize)
        requires
            self.wf(),
        ensures
            r == self.registered().len(),
            r <= NUM_DRIVERS,
    {
        self.next_index
    }

    /// The descriptor of the driver that was registered as number `index`,
    /// counted from zero.
    pub fn get(&self, index: usize) -> (r: DeviceDriverDescriptor<T>)
        requires
            self.wf(),
            index < self.registered().len(),
        ensures
            r == self.registered()[index as int],
    {
        self.descriptors[index].unwrap()
    }
}

/// Provides device driver management functions.
#[verifier::reject_recursive_types(T)]
pub struct DriverManager<T: 'static> {
    inner: InitStateLock<DriverManagerInner<T>>,
}

impl<T: Copy> DriverManager<T> {
    /// The list is well formed.
    pub closed spec fn wf(&self) -> bool {
        self.inner@.wf()
    }

    /// The registered descriptors, in the order of registration.
    pub closed spec fn registered(&self) -> Seq<DeviceDriverDescriptor<T>> {
        self.inner@.registered()
    }

    /// A well-formed list holds no more drivers than it has room for.
    pub proof fn lemma_registered_len(&self)
        requires
            self.wf(),
        ensures
            self.registered().len() <= NUM_DRIVERS,
    {
    }

    /// Create an instance.
    pub fn new() -> (r: Self)
        ensures
            r.wf(),
            r.registered().len() == 0,
    {
        Self { inner: InitStateLock::new(DriverManagerInner::new()) }
    }

    /// Register a device driver with the kernel. The list takes
    /// `NUM_DRIVERS` drivers; a further one is refused.
    pub fn register_driver(
        &mut self,
        state: &StateManager,
        daif: &Daif,
        descriptor: DeviceDriverDescriptor<T>,
    ) -> (r: Result<(), &'static str>)
        requires
            old(self).wf(),
            write_permitted(state@, *daif),
        ensures
            final(self).wf(),
            if old(self).registered().len() < NUM_DRIVERS {
                &&& r == Ok::<(), &'static str>(())
                &&& final(self).registered() == old(self).registered().push(descriptor)
            } else {
                &&& r == Err::<(), &'static str>(capacity_exceeded())
                &&& final(self).registered() == old(self).registered()
            },
    {
        let append = |inner: &mut DriverManagerInner<T>| -> (r: Result<(), &'static str>)
            requires
                old(inner).wf(),
            ensures
                final(inner).wf(),
                if old(inner).registered().len() < NUM_DRIVERS {
                    &&& r == Ok::<(), &'static str>(())
                    &&& final(inner).registered() == old(inner).registered().push(descriptor)
                } else {
                    &&& r == Err::<(), &'static str>(capacity_exceeded())
                    &&& final(inner).registered() == old(inner).registered()
                },
            {
                inner.push(descriptor)
            };
        self.inner.write(state, daif, append)
    }

    /// A copy of the list.
    fn snapshot(&self) -> (r: DriverManagerInner<T>)
        ensures
            r == self.inner@,
    {
        let copy = |inner: &DriverManagerInner<T>| -> (r: DriverManagerInner<T>)
            ensures
                r == *inner,
            {
                *inner
            };
        self.inner.read(copy)
    }

    /// The calls of the bring-up, in their order.
    pub fn plan(&self) -> (r: Vec<BringUpStep>)
        requires
            self.wf(),
        ensures
            r@ == bring_up_plan(self.registered()),
    {
        let inner = self.snapshot();
        let count = inner.len();
        let mut steps: Vec<BringUpStep> = Vec::new();
        let mut i: usize = 0;
        while i < count
            invariant
                i <= count == inner.registered().len(),
                inner.wf(),
                steps@ == phase_one(inner.registered(), i as int),
            decreases count - i,
        {
            let descriptor = inner.get(i);
            steps.push(BringUpStep::Init(i));
            if descriptor.post_init_callback.is_some() {
                steps.push(BringUpStep::PostInit(i));
            }
            i += 1;
        }
        let ghost one = steps@;
        let mut i: usize = 0;
        while i < count
            invariant
                i <= count == inner.registered().len(),
                inner.wf(),
                steps@ == one + phase_two(inner.registered(), i as int),
            decreases count - i,
        {
            let descriptor = inner.get(i);
            let ghost before = steps@;
            if descriptor.irq_number.is_some() {
                steps.push(BringUpStep::RegisterIrqHandler(i));
                assert(steps@ =~= one + phase_two(inner.registered(), i + 1));
            }
            i += 1;
        }
        steps
    }

    /// Fully initialize all drivers and their interrupts handlers: makes the
    /// calls of the bring-up in their order, and ends at the first that
    /// fails, with its error. Whether a call fails is the driver's to say;
    /// with no driver registered there is no call, and nothing fails.
    pub fn init_drivers_and_irqs(&self) -> (r: Result<(), BringUpError>)
        requires
            self.wf(),
        ensures
            self.registered().len() == 0 ==> r == Ok::<(), BringUpError>(()),
            r matches Err(e) ==> bring_up_plan(self.registered()).contains(e.step),
    {
        let inner = self.snapshot();
        let steps = self.plan();
        proof {
            law_bring_up_calls_every_driver(inner.registered());
            if inner.registered().len() == 0 {
                assert(bring_up_plan(inner.registered()).len() == 0);
            }
        }
        let mut k: usize = 0;
        while k < steps.len()
            invariant
                k <= steps.len(),
                self.registered().len() == 0 ==> steps.len() == 0,
                inner.wf(),
                inner.registered() == self.registered(),
                steps@ == bring_up_plan(inner.registered()),
                forall|j: int|
                    0 <= j < steps@.len() ==> (#[trigger] steps@[j]).driver()
                        < inner.registered().len(),
            decreases steps.len() - k,
        {
            let step = steps[k];
            let result = match step {
                BringUpStep::Init(i) => {
                    let descriptor = inner.get(i);
                    let result = descriptor.device_driver.init();
                    step_outcome(step, descriptor.device_driver.compatible(), result)
                },
                BringUpStep::PostInit(i) => {
                    let descriptor = inner.get(i);
                    match descriptor.post_init_callback {
                        Some(callback) => {
                            let result = callback.call();
                            step_outcome(step, descriptor.device_driver.compatible(), result)
                        },
                        None => Ok(()),
                    }
                },
                BringUpStep::RegisterIrqHandler(i) => {
                    let descriptor = inner.get(i);
                    match descriptor.irq_number {
                        Some(irq_number) => {
                            let result = descriptor.device_driver.register_and_enable_irq_handler(
                                &irq_number,
                            );
                            step_outcome(step, descriptor.device_driver.compatible(), result)
                        },
                        None => Ok(()),
                    }
                },
            };
            match result {
                Err(e) => {
                    assert(steps@[k as int] == e.step);
                    return Err(e);
                },
                Ok(()) => {},
            }
            k += 1;
        }
        Ok(())
    }

    /// Enumerate all registered device drivers: each with its number in the
    /// order of registration, counted from one, and its compatibility
    /// string.
    pub fn enumerate(&self) -> (r: Vec<(usize, &'static str)>)
        requires
            self.wf(),
        ensures
            r@.len() == self.registered().len(),
            forall|i: int| 0 <= i < r@.len() ==> (#[trigger] r@[i]).0 == i + 1,
    {
        let inner = self.snapshot();
        let count = inner.len();
        let mut lines: Vec<(usize, &'static str)> = Vec::new();
        let mut i: usize = 0;
        while i < count
            invariant
                i <= count == inner.registered().len(),
                count <= NUM_DRIVERS,
                inner.wf(),
                lines@.len() == i,
                forall|j: int| 0 <= j < lines@.len() ==> (#[trigger] lines@[j]).0 == j + 1,
            decreases count - i,
        {
            let descriptor = inner.get(i);
            lines.push((i + 1, descriptor.device_driver.compatible()));
            i += 1;
        }
        lines
    }
}

/// Return a driver manager for the kernel's interrupt numbers, with no
/// driver registered.
pub fn driver_manager() -> (r: DriverManager<crate::exception::asynchronous::IrqNumber>)
    ensures
        r.wf(),
        r.registered().len() == 0,
{
    DriverManager::new()
}

} // verus!
