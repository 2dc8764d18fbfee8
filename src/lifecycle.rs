use vstd::prelude::*;

verus! {

/// The kinds of GPU object that live inside a device and are released
/// through it.
#[derive(Clone, Copy, Debug, PartialEq, Eq, Structural)]
pub enum DeviceResource {
    Shader,
    Buffer,
    TransferBuffer,
    GraphicsPipeline,
}

/// One release operation, with the handles it needs.
#[derive(Debug, PartialEq, Eq)]
pub enum Release<H> {
    /// Release the device-scoped object `handle`, held in ledger slot `slot`,
    /// through the `device` that created it.
    Resource { kind: DeviceResource, slot: usize, device: H, handle: H },
    /// Unbind `window` from `device`.
    ReleaseWindowFromDevice { device: H, window: H },
    /// Destroy the device.
    DestroyDevice(H),
    /// Destroy the window.
    DestroyWindow(H),
}

/// Tracks the GPU objects a program owns, so that each one is released
/// exactly once, through its owning device, and in an order the platform
/// allows: device-scoped objects before the device, the device before the
/// window.
///
/// Slot `i` of `resources` holds the `i`-th device-scoped object adopted; a
/// slot becomes empty once its object has been released.
pub struct ResourceLedger<H> {
    window: Option<H>,
    device: Option<H>,
    claimed: bool,
    resources: Vec<(DeviceResource, Option<H>)>,
}

/// The abstract state of a [`ResourceLedger`].
pub struct LedgerView<H> {
    pub window: Option<H>,
    pub device: Option<H>,
    pub claimed: bool,
    pub resources: Seq<(DeviceResource, Option<H>)>,
}

impl<H> View for ResourceLedger<H> {
    type V = LedgerView<H>;

    closed spec fn view(&self) -> LedgerView<H> {
        LedgerView {
            window: self.window,
            device: self.device,
            claimed: self.claimed,
            resources: self.resources@,
        }
    }
}

impl<H> LedgerView<H> {
    /// A device-scoped object is only held while its device is, and the
    /// window is only claimed while both the window and the device are held.
    pub open spec fn wf(&self) -> bool {
        &&& (exists|i: int| 0 <= i < self.resources.len() && (#[trigger] self.resources[i]).1 is Some)
            ==> self.device is Some
        &&& self.claimed ==> self.window is Some && self.device is Some
    }

    /// Whether slot `slot` holds an object that has not been released.
    pub open spec fn live(&self, slot: int) -> bool {
        0 <= slot < self.resources.len() && self.resources[slot].1 is Some
    }

    /// The state after adopting the outcome `handle` of creating an object of
    /// `kind`: a successful creation takes a new slot, a failed one changes
    /// nothing.
    pub open spec fn adopted(self, kind: DeviceResource, handle: Option<H>) -> LedgerView<H> {
        match handle {
            Some(h) => LedgerView { resources: self.resources.push((kind, Some(h))), ..self },
            None => self,
        }
    }

    /// The state after releasing the object in `slot`, if it is live.
    pub open spec fn released(self, slot: int) -> LedgerView<H> {
        if self.live(slot) {
            LedgerView {
                resources: self.resources.update(slot, (self.resources[slot].0, None)),
                ..self
            }
        } else {
            self
        }
    }

    /// The release operation for the object in `slot`, which is live.
    pub open spec fn release_of(self, slot: int) -> Release<H> {
        Release::Resource {
            kind: self.resources[slot].0,
            slot: slot as usize,
            device: self.device->Some_0,
            handle: self.resources[slot].1->Some_0,
        }
    }
}

/// The release operations, newest first, for the live objects in slots
/// `lo..hi` of `resources`, all of which belong to `device`.
pub open spec fn scoped_releases<H>(
    resources: Seq<(DeviceResource, Option<H>)>,
    device: H,
    lo: int,
    hi: int,
) -> Seq<Release<H>>
    decreases hi - lo,
{
    if lo >= hi {
        seq![]
    } else {
        scoped_releases(resources, device, lo + 1, hi) + match resources[lo].1 {
            Some(h) => seq![Release::Resource { kind: resources[lo].0, slot: lo as usize, device, handle: h }],
            None => seq![],
        }
    }
}

/// Everything a ledger in state `v` releases at teardown, in order: its live
/// device-scoped objects, newest first; then the window's binding to the
/// device, if it was claimed; then the device; then the window.
pub open spec fn teardown_plan<H>(v: LedgerView<H>) -> Seq<Release<H>> {
    let scoped = match v.device {
        Some(d) => scoped_releases(v.resources, d, 0, v.resources.len() as int),
        None => seq![],
    };
    let unclaim = if v.claimed {
        seq![Release::ReleaseWindowFromDevice { device: v.device->Some_0, window: v.window->Some_0 }]
    } else {
        seq![]
    };
    let device = match v.device {
        Some(d) => seq![Release::DestroyDevice(d)],
        None => seq![],
    };
    let window = match v.window {
        Some(w) => seq![Release::DestroyWindow(w)],
        None => seq![],
    };
    scoped + unclaim + device + window
}

/// The position of a release in the teardown order.
pub open spec fn release_stage<H>(r: Release<H>) -> int {
    match r {
        Release::Resource { .. } => 0,
        Release::ReleaseWindowFromDevice { .. } => 1,
        Release::DestroyDevice(_) => 2,
        Release::DestroyWindow(_) => 3,
    }
}

/// Whether `r` releases the device-scoped object in slot `slot`.
pub open spec fn releases_slot<H>(r: Release<H>, slot: int) -> bool {
    match r {
        Release::Resource { slot: s, .. } => s == slot,
        _ => false,
    }
}

/// The slot a device-scoped release refers to.
pub open spec fn slot_of<H>(r: Release<H>) -> int {
    match r {
        Release::Resource { slot, .. } => slot as int,
        _ => -1,
    }
}

proof fn lemma_scoped_releases<H>(resources: Seq<(DeviceResource, Option<H>)>, device: H, lo: int, hi: int)
    requires
        0 <= lo,
        hi <= resources.len(),
        resources.len() <= usize::MAX + 1,
    ensures
        ({
            let s = scoped_releases(resources, device, lo, hi);
            &&& forall|k: int| 0 <= k < s.len() ==> {
                let slot = slot_of(#[trigger] s[k]);
                &&& lo <= slot < hi
                &&& resources[slot].1 is Some
                &&& s[k] == (Release::Resource {
                    kind: resources[slot].0,
                    slot: slot as usize,
                    device,
                    handle: resources[slot].1->Some_0,
                })
            }
            &&& forall|k1: int, k2: int| 0 <= k1 < k2 < s.len() ==> slot_of(#[trigger] s[k1]) > slot_of(#[trigger] s[k2])
            &&& forall|slot: int| lo <= slot < hi && (#[trigger] resources[slot]).1 is Some ==>
                exists|k: int| 0 <= k < s.len() && slot_of(#[trigger] s[k]) == slot
        }),
    decreases hi - lo,
{
    let s = scoped_releases(resources, device, lo, hi);
    if lo < hi {
        lemma_scoped_releases(resources, device, lo + 1, hi);
        let rest = scoped_releases(resources, device, lo + 1, hi);
        assert forall|slot: int| lo <= slot < hi && (#[trigger] resources[slot]).1 is Some implies
            exists|k: int| 0 <= k < s.len() && slot_of(#[trigger] s[k]) == slot by {
            if slot == lo {
                assert(slot_of(s[rest.len() as int]) == slot);
            } else {
                let k = choose|k: int| 0 <= k < rest.len() && slot_of(#[trigger] rest[k]) == slot;
                assert(s[k] == rest[k]);
            }
        }
    }
}

/// Teardown releases every device-scoped object through the ledger's device
/// before it unbinds the window from the device, unbinds the window before it
/// destroys the device, and destroys the device before the window; each of
/// the last three happens at most once, and the device-scoped objects go
/// newest first, each while it is still live. This holds whichever
/// creations succeeded.
pub proof fn lemma_teardown_order<H>(v: LedgerView<H>)
    requires
        v.wf(),
        v.resources.len() <= usize::MAX + 1,
    ensures
        ({
            let plan = teardown_plan(v);
            &&& forall|i: int, j: int| 0 <= i < j < plan.len() ==>
                release_stage(#[trigger] plan[i]) < release_stage(#[trigger] plan[j])
                || (release_stage(plan[i]) == 0 && release_stage(plan[j]) == 0 && slot_of(plan[i]) > slot_of(plan[j]))
            &&& forall|i: int| 0 <= i < plan.len() && release_stage(#[trigger] plan[i]) == 0 ==>
                v.live(slot_of(plan[i])) && plan[i] == v.release_of(slot_of(plan[i]))
        }),
{
    let plan = teardown_plan(v);
    if let Some(d) = v.device {
        lemma_scoped_releases(v.resources, d, 0, v.resources.len() as int);
    }
    let scoped = match v.device {
        Some(d) => scoped_releases(v.resources, d, 0, v.resources.len() as int),
        None => seq![],
    };
    assert forall|i: int| scoped.len() <= i < plan.len() implies release_stage(#[trigger] plan[i]) > 0 by {}
    assert forall|i: int| 0 <= i < scoped.len() implies #[trigger] plan[i] == scoped[i] by {}
}

/// Every object the ledger holds is released exactly once, through its
/// device. While it is live, teardown releases it exactly once, with the
/// same operation an early release gives; once released early, teardown
/// does not release it again; and an object whose creation failed is never
/// recorded, so nothing ever releases it.
pub proof fn lemma_released_exactly_once<H>(v: LedgerView<H>, slot: int, kind: DeviceResource)
    requires
        v.wf(),
        v.resources.len() <= usize::MAX + 1,
    ensures
        v.live(slot) ==> exists|k: int|
            0 <= k < teardown_plan(v).len() && #[trigger] teardown_plan(v)[k] == v.release_of(slot),
        forall|k1: int, k2: int|
            0 <= k1 < teardown_plan(v).len() && 0 <= k2 < teardown_plan(v).len()
                && releases_slot(#[trigger] teardown_plan(v)[k1], slot)
                && releases_slot(#[trigger] teardown_plan(v)[k2], slot) ==> k1 == k2,
        !v.live(slot) ==> forall|k: int|
            0 <= k < teardown_plan(v).len() ==> !releases_slot(#[trigger] teardown_plan(v)[k], slot),
        v.released(slot).wf(),
        forall|k: int|
            0 <= k < teardown_plan(v.released(slot)).len()
                ==> !releases_slot(#[trigger] teardown_plan(v.released(slot))[k], slot),
        v.adopted(kind, None) == v,
{
    let plan = teardown_plan(v);
    lemma_teardown_order(v);
    let w = v.released(slot);
    assert(w.wf()) by {
        if exists|i: int| 0 <= i < w.resources.len() && (#[trigger] w.resources[i]).1 is Some {
            let i = choose|i: int| 0 <= i < w.resources.len() && (#[trigger] w.resources[i]).1 is Some;
            assert(v.resources[i].1 is Some);
        }
    }
    lemma_teardown_order(w);
    if let Some(d) = v.device {
        lemma_scoped_releases(v.resources, d, 0, v.resources.len() as int);
        let scoped = scoped_releases(v.resources, d, 0, v.resources.len() as int);
        assert forall|i: int| 0 <= i < scoped.len() implies #[trigger] plan[i] == scoped[i] by {}
        if v.live(slot) {
            let k = choose|k: int| 0 <= k < scoped.len() && slot_of(#[trigger] scoped[k]) == slot;
            assert(plan[k] == scoped[k]);
        }
    }
    assert forall|k1: int, k2: int|
        0 <= k1 < plan.len() && 0 <= k2 < plan.len()
            && releases_slot(#[trigger] plan[k1], slot)
            && releases_slot(#[trigger] plan[k2], slot) implies k1 == k2 by {
        if k1 < k2 {
            assert(release_stage(plan[k1]) == 0 && release_stage(plan[k2]) == 0);
        } else if k2 < k1 {
            assert(release_stage(plan[k1]) == 0 && release_stage(plan[k2]) == 0);
        }
    }
    assert forall|k: int| 0 <= k < plan.len() && !v.live(slot) implies !releases_slot(#[trigger] plan[k], slot) by {
        if releases_slot(plan[k], slot) {
            assert(release_stage(plan[k]) == 0);
        }
    }
    let wplan = teardown_plan(w);
    assert(!w.live(slot));
    assert forall|k: int| 0 <= k < wplan.len() implies !releases_slot(#[trigger] wplan[k], slot) by {
        if releases_slot(wplan[k], slot) {
            assert(release_stage(wplan[k]) == 0);
        }
    }
}

impl<H: Copy> ResourceLedger<H> {
    /// A ledger that holds nothing.
    pub fn new() -> (r: ResourceLedger<H>)
        ensures
            r@.wf(),
            r@.window is None,
            r@.device is None,
            !r@.claimed,
            r@.resources.len() == 0,
    {
        ResourceLedger { window: None, device: None, claimed: false, resources: Vec::new() }
    }

    /// Takes ownership of the window, if its creation succeeded (`Some`).
    /// Returns whether a window is now held.
    pub fn adopt_window(&mut self, window: Option<H>) -> (r: bool)
        requires
            old(self)@.wf(),
            old(self)@.window is None,
        ensures
            final(self)@.wf(),
            final(self)@ == (LedgerView { window, ..old(self)@ }),
            r == window is Some,
    {
        self.window = window;
        window.is_some()
    }

    /// Takes ownership of the device, if its creation succeeded (`Some`).
    /// Returns whether a device is now held.
    pub fn adopt_device(&mut self, device: Option<H>) -> (r: bool)
        requires
            old(self)@.wf(),
            old(self)@.device is None,
        ensures
            final(self)@.wf(),
            final(self)@ == (LedgerView { device, ..old(self)@ }),
            r == device is Some,
    {
        self.device = device;
        device.is_some()
    }

    /// Records whether the device's claim of the window succeeded.
    pub fn record_claim(&mut self, claimed: bool)
        requires
            old(self)@.wf(),
            old(self)@.window is Some,
            old(self)@.device is Some,
            !old(self)@.claimed,
        ensures
            final(self)@.wf(),
            final(self)@ == (LedgerView { claimed, ..old(self)@ }),
    {
        self.claimed = claimed;
    }

    /// Takes ownership of a device-scoped object of `kind`, if its creation
    /// succeeded (`Some`), and returns the slot that now holds it. A failed
    /// creation is not recorded and is never released.
    pub fn adopt(&mut self, kind: DeviceResource, handle: Option<H>) -> (r: Option<usize>)
        requires
            old(self)@.wf(),
            old(self)@.device is Some,
        ensures
            final(self)@.wf(),
            final(self)@ == old(self)@.adopted(kind, handle),
            handle is Some <==> r is Some,
            r is Some ==> r->Some_0 == old(self)@.resources.len(),
    {
        match handle {
            Some(h) => {
                let slot = self.resources.len();
                self.resources.push((kind, Some(h)));
                Some(slot)
            },
            None => None,
        }
    }

    /// The window, if held.
    pub fn window(&self) -> (r: Option<H>)
        ensures
            r == self@.window,
    {
        self.window
    }

    /// The device, if held.
    pub fn device(&self) -> (r: Option<H>)
        ensures
            r == self@.device,
    {
        self.device
    }

    /// The handle of the object in `slot`, if it is live.
    pub fn get(&self, slot: usize) -> (r: Option<H>)
        ensures
            self@.live(slot as int) ==> r == self@.resources[slot as int].1,
            !self@.live(slot as int) ==> r is None,
    {
        if slot < self.resources.len() {
            self.resources[slot].1
        } else {
            None
        }
    }

    /// Releases the object in `slot` ahead of teardown. Returns the release
    /// to perform, or `None` when the slot holds nothing (never adopted, or
    /// already released).
    pub fn release(&mut self, slot: usize) -> (r: Option<Release<H>>)
        requires
            old(self)@.wf(),
        ensures
            final(self)@ == old(self)@.released(slot as int),
            final(self)@.wf(),
            old(self)@.live(slot as int) ==> r == Some(old(self)@.release_of(slot as int)),
            !old(self)@.live(slot as int) ==> r is None,
    {
        if slot < self.resources.len() {
            let (kind, handle) = self.resources[slot];
            match handle {
                Some(h) => {
                    let device = self.device.unwrap();
                    self.resources.set(slot, (kind, None));
                    proof {
                        let v = self@;
                        if exists|i: int| 0 <= i < v.resources.len() && (#[trigger] v.resources[i]).1 is Some {
                            let i = choose|i: int| 0 <= i < v.resources.len() && (#[trigger] v.resources[i]).1 is Some;
                            assert(old(self)@.resources[i].1 is Some);
                        }
                    }
                    Some(Release::Resource { kind, slot, device, handle: h })
                },
                None => None,
            }
        } else {
            None
        }
    }

    /// Empties the ledger and returns every release still owed, in the order
    /// they must be performed (see [`teardown_plan`]).
    pub fn teardown(&mut self) -> (plan: Vec<Release<H>>)
        requires
            old(self)@.wf(),
        ensures
            final(self)@.wf(),
            plan@ == teardown_plan(old(self)@),
            final(self)@.window is None,
            final(self)@.device is None,
            !final(self)@.claimed,
            final(self)@.resources.len() == 0,
    {
        let mut plan: Vec<Release<H>> = Vec::new();
        if let Some(device) = self.device {
            let mut i: usize = self.resources.len();
            while i > 0
                invariant
                    i <= self.resources@.len(),
                    plan@ == scoped_releases(self.resources@, device, i as int, self.resources@.len() as int),
                decreases i,
            {
                i = i - 1;
                let (kind, handle) = self.resources[i];
                if let Some(h) = handle {
                    plan.push(Release::Resource { kind, slot: i, device, handle: h });
                }
            }
            if self.claimed {
                let window = self.window.unwrap();
                plan.push(Release::ReleaseWindowFromDevice { device, window });
            }
            plan.push(Release::DestroyDevice(device));
        }
        if let Some(window) = self.window {
            plan.push(Release::DestroyWindow(window));
        }
        assert(plan@ =~= teardown_plan(old(self)@));
        self.window = None;
        self.device = None;
        self.claimed = false;
        self.resources = Vec::new();
        plan
    }
}

} // verus!
