//! The clock configurator: enabling an instance with a chosen clock source,
//! reference-counted sharing of the enabled clock through handles, teardown
//! when the last handle is released, and personality selection.

use vstd::prelude::*;
use crate::clock::Clock;
use crate::clock::FcSel;
use crate::clock::FrgSel;
use crate::clock::frg_sel;
use crate::clock::frg_sel_of;
use crate::clock::primary_sel;
use crate::clock::primary_sel_of;
use crate::clock::uses_frg;
use crate::instance::Instance;
use crate::instance::Mode;
use crate::instance::lemma_index_facts;
use crate::instance::lemma_index_injective;
use crate::regs::ClockCtl;
use crate::regs::FcClockRegs;
use crate::state::FlexcommRef;
use crate::state::State;

verus! {

/// Everything one instance identity observes of the controller: its clock
/// registers, its bus-clock/reset gate, its selected personality, and its
/// live-handle count.
pub struct InstView {
    /// Primary clock-select mux contents.
    pub fclksel: FcSel,
    /// Fractional-rate-generator mux contents.
    pub frgclksel: FrgSel,
    /// Generator multiplier contents.
    pub frg_mult: u8,
    /// Whether the bus clock is ungated and the instance out of reset.
    pub powered: bool,
    /// The personality written to the instance's select register, if any.
    pub pselid: Option<Mode>,
    /// Number of live handles of the current enable cycle.
    pub refcount: u8,
}

/// What an instance observes before its first enable: muxes off, gated,
/// no personality selected, no live handles.
pub open spec fn reset_view() -> InstView {
    InstView {
        fclksel: FcSel::Off,
        frgclksel: FrgSel::Off,
        frg_mult: 0,
        powered: false,
        pselid: Option::None,
        refcount: 0,
    }
}

/// What enabling with `clock` makes of an instance's observable state: both
/// muxes programmed from the source, a neutral generator multiplier, power
/// ungated, and exactly one live handle. The selected personality is left
/// alone.
pub open spec fn enable_effect(prev: InstView, clock: Clock) -> InstView {
    InstView {
        fclksel: primary_sel(clock),
        frgclksel: frg_sel(clock),
        frg_mult: 0,
        powered: true,
        pselid: prev.pselid,
        refcount: 1,
    }
}

/// What releasing one handle makes of its instance's observable state: the
/// last release tears the clocks down (both muxes off, power gated) as it
/// drops the count to zero; any earlier release only drops the count.
pub open spec fn release_step(prev: InstView) -> InstView {
    if prev.refcount == 1 {
        InstView {
            fclksel: FcSel::Off,
            frgclksel: FrgSel::Off,
            frg_mult: prev.frg_mult,
            powered: false,
            pselid: prev.pselid,
            refcount: 0,
        }
    } else {
        InstView {
            fclksel: prev.fclksel,
            frgclksel: prev.frgclksel,
            frg_mult: prev.frg_mult,
            powered: prev.powered,
            pselid: prev.pselid,
            refcount: (prev.refcount - 1) as u8,
        }
    }
}

/// Whether releasing a handle against state `prev` runs the clock-disable
/// sequence: exactly when the released handle is the last live one.
pub open spec fn release_disables(prev: InstView) -> bool {
    prev.refcount == 1
}

/// The clock configurator and the process-wide per-instance state it
/// manages: the clock-control register surface, the bus-clock/reset gates,
/// the personality-select registers, and one live-handle counter per
/// instance.
pub struct Controller {
    clkctl: ClockCtl,
    powered: Vec<bool>,
    pselid: Vec<Option<Mode>>,
    states: Vec<State>,
}

impl Controller {
    /// Every per-instance table covers exactly the sixteen identities.
    pub closed spec fn wf(self) -> bool {
        &&& self.clkctl.wf()
        &&& self.powered.len() == 16
        &&& self.pselid.len() == 16
        &&& self.states.len() == 16
    }

    /// The observable state of the identity occupying slot `idx`.
    pub closed spec fn view_at(self, idx: int) -> InstView {
        InstView {
            fclksel: self.clkctl.regs_at(idx).fclksel,
            frgclksel: self.clkctl.regs_at(idx).frgclksel,
            frg_mult: self.clkctl.regs_at(idx).frg_mult,
            powered: self.powered[idx],
            pselid: self.pselid[idx],
            refcount: self.states[idx].spec_count(),
        }
    }

    /// The observable state of instance `i`.
    pub open spec fn inst_view(self, i: Instance) -> InstView {
        self.view_at(i.spec_index())
    }

    /// The number of live handles of instance `i`.
    pub open spec fn spec_refcount(self, i: Instance) -> u8 {
        self.inst_view(i).refcount
    }

    /// Builds the controller in its power-on state: every instance gated,
    /// both muxes off, no personality selected, and no live handles.
    pub fn new() -> (c: Controller)
        ensures
            c.wf(),
            forall|i: Instance| c.inst_view(i) == reset_view(),
    {
        let clkctl = ClockCtl::new();
        let mut powered: Vec<bool> = Vec::new();
        let mut pselid: Vec<Option<Mode>> = Vec::new();
        let mut states: Vec<State> = Vec::new();
        let mut k: usize = 0;
        while k < 16
            invariant
                powered.len() == k,
                pselid.len() == k,
                states.len() == k,
                k <= 16,
                forall|j: int| 0 <= j < k ==> !powered[j],
                forall|j: int| 0 <= j < k ==> pselid[j] == Option::<Mode>::None,
                forall|j: int| 0 <= j < k ==> states[j].spec_count() == 0,
            decreases 16 - k,
        {
            powered.push(false);
            pselid.push(Option::None);
            states.push(State::new());
            k = k + 1;
        }
        let c = Controller { clkctl, powered, pselid, states };
        proof {
            assert forall|i: Instance| c.inst_view(i) == reset_view() by {
                lemma_index_facts(i);
            }
        }
        c
    }

    /// Programs instance `i`'s primary clock-select mux, dispatching to the
    /// dedicated register of a special instance or the indexed array of a
    /// uniform one.
    fn write_fclksel(&mut self, i: Instance, sel: FcSel)
        requires
            old(self).wf(),
        ensures
            final(self).wf(),
            final(self).view_at(i.spec_index()) == (InstView {
                fclksel: sel,
                ..old(self).view_at(i.spec_index())
            }),
            forall|k: int|
                0 <= k < 16 && k != i.spec_index() ==> final(self).view_at(k) == old(
                    self,
                ).view_at(k),
    {
        proof {
            lemma_index_facts(i);
        }
        match i {
            Instance::Flexcomm14 => {
                self.clkctl.fc14_fclksel = sel;
            },
            Instance::Flexcomm15 => {
                self.clkctl.fc15_fclksel = sel;
            },
            _ => {
                let idx = i.index();
                self.clkctl.flexcomm[idx].fclksel = sel;
            },
        }
    }

    /// Programs instance `i`'s fractional-rate-generator mux, with the same
    /// layout dispatch as the primary mux.
    fn write_frgclksel(&mut self, i: Instance, sel: FrgSel)
        requires
            old(self).wf(),
        ensures
            final(self).wf(),
            final(self).view_at(i.spec_index()) == (InstView {
                frgclksel: sel,
                ..old(self).view_at(i.spec_index())
            }),
            forall|k: int|
                0 <= k < 16 && k != i.spec_index() ==> final(self).view_at(k) == old(
                    self,
                ).view_at(k),
    {
        proof {
            lemma_index_facts(i);
        }
        match i {
            Instance::Flexcomm14 => {
                self.clkctl.frg14_clksel = sel;
            },
            Instance::Flexcomm15 => {
                self.clkctl.frg15_clksel = sel;
            },
            _ => {
                let idx = i.index();
                self.clkctl.flexcomm[idx].frgclksel = sel;
            },
        }
    }

    /// Programs instance `i`'s generator multiplier, with the same layout
    /// dispatch as the muxes.
    fn write_frg_mult(&mut self, i: Instance, mult: u8)
        requires
            old(self).wf(),
        ensures
            final(self).wf(),
            final(self).view_at(i.spec_index()) == (InstView {
                frg_mult: mult,
                ..old(self).view_at(i.spec_index())
            }),
            forall|k: int|
                0 <= k < 16 && k != i.spec_index() ==> final(self).view_at(k) == old(
                    self,
                ).view_at(k),
    {
        proof {
            lemma_index_facts(i);
        }
        match i {
            Instance::Flexcomm14 => {
                self.clkctl.frg14_mult = mult;
            },
            Instance::Flexcomm15 => {
                self.clkctl.frg15_mult = mult;
            },
            _ => {
                let idx = i.index();
                self.clkctl.flexcomm[idx].frg_mult = mult;
            },
        }
    }

    /// Ungates instance `i`'s bus clock and releases its reset: the
    /// enable-and-reset sequence of the clock/reset collaborator.
    fn enable_and_reset(&mut self, i: Instance)
        requires
            old(self).wf(),
        ensures
            final(self).wf(),
            final(self).view_at(i.spec_index()) == (InstView {
                powered: true,
                ..old(self).view_at(i.spec_index())
            }),
            forall|k: int|
                0 <= k < 16 && k != i.spec_index() ==> final(self).view_at(k) == old(
                    self,
                ).view_at(k),
    {
        proof {
            lemma_index_facts(i);
        }
        let idx = i.index();
        self.powered[idx] = true;
    }

    /// Gates instance `i`'s bus clock and asserts its reset: the disable
    /// sequence of the clock/reset collaborator.
    fn syscon_disable(&mut self, i: Instance)
        requires
            old(self).wf(),
        ensures
            final(self).wf(),
            final(self).view_at(i.spec_index()) == (InstView {
                powered: false,
                ..old(self).view_at(i.spec_index())
            }),
            forall|k: int|
                0 <= k < 16 && k != i.spec_index() ==> final(self).view_at(k) == old(
                    self,
                ).view_at(k),
    {
        proof {
            lemma_index_facts(i);
        }
        let idx = i.index();
        self.powered[idx] = false;
    }

    /// Tears instance `i`'s clocks down: writes "off" to both muxes, then
    /// gates the bus clock and asserts reset. Runs only from the release of
    /// the last live handle.
    fn disable_clocks(&mut self, i: Instance)
        requires
            old(self).wf(),
        ensures
            final(self).wf(),
            final(self).view_at(i.spec_index()) == (InstView {
                fclksel: FcSel::Off,
                frgclksel: FrgSel::Off,
                powered: false,
                ..old(self).view_at(i.spec_index())
            }),
            forall|k: int|
                0 <= k < 16 && k != i.spec_index() ==> final(self).view_at(k) == old(
                    self,
                ).view_at(k),
    {
        self.write_fclksel(i, FcSel::Off);
        self.write_frgclksel(i, FrgSel::Off);
        self.syscon_disable(i);
    }

    /// Enables `instance` with the chosen clock source and returns the first
    /// handle of the new enable cycle.
    ///
    /// Programs the primary mux from the source, programs the generator mux
    /// to the matching upstream for a generator-fed source and to "off" for
    /// every other source, writes the neutral generator multiplier, ungates
    /// the instance, and records exactly one live consumer. Valid only while
    /// the instance has no live handles; the clock stays enabled as long as
    /// at least one handle of the cycle survives.
    pub fn enable(&mut self, instance: Instance, clock: Clock) -> (handle: FlexcommRef)
        requires
            old(self).wf(),
            old(self).spec_refcount(instance) == 0,
        ensures
            final(self).wf(),
            final(self).inst_view(instance) == enable_effect(
                old(self).inst_view(instance),
                clock,
            ),
            forall|j: Instance|
                j != instance ==> final(self).inst_view(j) == old(self).inst_view(j),
            handle.spec_instance() == instance,
    {
        proof {
            lemma_index_facts(instance);
        }
        let fsel = primary_sel_of(clock);
        let gsel = frg_sel_of(clock);
        self.write_fclksel(instance, fsel);
        self.write_frgclksel(instance, gsel);
        self.write_frg_mult(instance, 0);
        self.enable_and_reset(instance);
        let idx = instance.index();
        let mut cell = self.states[idx];
        let handle = FlexcommRef::new(&mut cell, instance);
        self.states[idx] = cell;
        proof {
            assert forall|j: Instance|
                j != instance implies self.inst_view(j) == old(self).inst_view(j) by {
                lemma_index_facts(j);
                lemma_index_injective(j, instance);
            }
        }
        handle
    }

    /// Mints a sibling of `handle`, sharing the enabled clock: the
    /// instance's live-handle count rises by one and nothing else changes.
    pub fn clone_ref(&mut self, handle: &FlexcommRef) -> (sibling: FlexcommRef)
        requires
            old(self).wf(),
            old(self).spec_refcount(handle.spec_instance()) < 255,
        ensures
            final(self).wf(),
            final(self).inst_view(handle.spec_instance()) == (InstView {
                refcount: (old(self).spec_refcount(handle.spec_instance()) + 1) as u8,
                ..old(self).inst_view(handle.spec_instance())
            }),
            forall|j: Instance|
                j != handle.spec_instance() ==> final(self).inst_view(j) == old(
                    self,
                ).inst_view(j),
            sibling.spec_instance() == handle.spec_instance(),
    {
        let i = handle.instance();
        proof {
            lemma_index_facts(i);
        }
        let idx = i.index();
        let mut cell = self.states[idx];
        cell.increment();
        self.states[idx] = cell;
        let sibling = handle.sibling();
        proof {
            assert forall|j: Instance|
                j != handle.spec_instance() implies self.inst_view(j) == old(self).inst_view(
                j,
            ) by {
                lemma_index_facts(j);
                lemma_index_injective(j, i);
            }
        }
        sibling
    }

    /// Releases `handle`, spending it: the instance's live-handle count drops
    /// by one, and the release that drops it to zero — and only that one —
    /// tears the instance's clocks down.
    pub fn release(&mut self, handle: FlexcommRef)
        requires
            old(self).wf(),
            old(self).spec_refcount(handle.spec_instance()) >= 1,
        ensures
            final(self).wf(),
            final(self).inst_view(handle.spec_instance()) == release_step(
                old(self).inst_view(handle.spec_instance()),
            ),
            forall|j: Instance|
                j != handle.spec_instance() ==> final(self).inst_view(j) == old(
                    self,
                ).inst_view(j),
    {
        let i = handle.instance();
        proof {
            lemma_index_facts(i);
        }
        let idx = i.index();
        let mut cell = self.states[idx];
        let was = cell.decrement();
        self.states[idx] = cell;
        if was == 1 {
            self.disable_clocks(i);
        }
        proof {
            assert forall|j: Instance|
                j != handle.spec_instance() implies self.inst_view(j) == old(self).inst_view(
                j,
            ) by {
                lemma_index_facts(j);
                lemma_index_injective(j, i);
            }
        }
    }

    /// Selects the active protocol personality of `instance`: a single
    /// register write, permitted exactly for the personalities in the
    /// instance's hardwired capability set, and independent of the
    /// instance's live-handle count or enablement.
    pub fn select_mode(&mut self, instance: Instance, mode: Mode)
        requires
            old(self).wf(),
            instance.supports(mode),
        ensures
            final(self).wf(),
            final(self).inst_view(instance) == (InstView {
                pselid: Some(mode),
                ..old(self).inst_view(instance)
            }),
            forall|j: Instance|
                j != instance ==> final(self).inst_view(j) == old(self).inst_view(j),
    {
        proof {
            lemma_index_facts(instance);
        }
        let idx = instance.index();
        self.pselid[idx] = Some(mode);
        proof {
            assert forall|j: Instance|
                j != instance implies self.inst_view(j) == old(self).inst_view(j) by {
                lemma_index_facts(j);
                lemma_index_injective(j, instance);
            }
        }
    }

    /// Reads instance `i`'s live-handle count.
    pub fn refcount(&self, i: Instance) -> (n: u8)
        requires
            self.wf(),
        ensures
            n == self.spec_refcount(i),
    {
        proof {
            lemma_index_facts(i);
        }
        let idx = i.index();
        self.states[idx].count()
    }

    /// Reads instance `i`'s primary clock-select mux.
    pub fn fclksel(&self, i: Instance) -> (sel: FcSel)
        requires
            self.wf(),
        ensures
            sel == self.inst_view(i).fclksel,
    {
        proof {
            lemma_index_facts(i);
        }
        match i {
            Instance::Flexcomm14 => self.clkctl.fc14_fclksel,
            Instance::Flexcomm15 => self.clkctl.fc15_fclksel,
            _ => {
                let idx = i.index();
                self.clkctl.flexcomm[idx].fclksel
            },
        }
    }

    /// Reads instance `i`'s fractional-rate-generator mux.
    pub fn frgclksel(&self, i: Instance) -> (sel: FrgSel)
        requires
            self.wf(),
        ensures
            sel == self.inst_view(i).frgclksel,
    {
        proof {
            lemma_index_facts(i);
        }
        match i {
            Instance::Flexcomm14 => self.clkctl.frg14_clksel,
            Instance::Flexcomm15 => self.clkctl.frg15_clksel,
            _ => {
                let idx = i.index();
                self.clkctl.flexcomm[idx].frgclksel
            },
        }
    }

    /// Reads instance `i`'s generator multiplier.
    pub fn frg_mult(&self, i: Instance) -> (mult: u8)
        requires
            self.wf(),
        ensures
            mult == self.inst_view(i).frg_mult,
    {
        proof {
            lemma_index_facts(i);
        }
        match i {
            Instance::Flexcomm14 => self.clkctl.frg14_mult,
            Instance::Flexcomm15 => self.clkctl.frg15_mult,
            _ => {
                let idx = i.index();
                self.clkctl.flexcomm[idx].frg_mult
            },
        }
    }

    /// Reads whether instance `i`'s bus clock is ungated and its reset
    /// released.
    pub fn is_powered(&self, i: Instance) -> (p: bool)
        requires
            self.wf(),
        ensures
            p == self.inst_view(i).powered,
    {
        proof {
            lemma_index_facts(i);
        }
        let idx = i.index();
        self.powered[idx]
    }

    /// Reads the personality selected on instance `i`, if any has been
    /// written since power-on.
    pub fn selected_mode(&self, i: Instance) -> (m: Option<Mode>)
        requires
            self.wf(),
        ensures
            m == self.inst_view(i).pselid,
    {
        proof {
            lemma_index_facts(i);
        }
        let idx = i.index();
        self.pselid[idx]
    }
}

/// The observable state of one instance after `k` successive releases of its
/// handles, as `release` leaves it step by step.
pub open spec fn after_releases(v: InstView, k: nat) -> InstView
    decreases k,
{
    if k == 0 {
        v
    } else {
        release_step(after_releases(v, (k - 1) as nat))
    }
}

/// While releases are still outstanding, only the live-handle count has
/// moved: registers and power are untouched.
proof fn lemma_after_releases_shape(v: InstView, j: nat)
    requires
        j < v.refcount,
    ensures
        after_releases(v, j) == (InstView { refcount: (v.refcount - j) as u8, ..v }),
    decreases j,
{
    if j > 0 {
        lemma_after_releases_shape(v, (j - 1) as nat);
    }
}

/// Law: a cycle with `k` live handles — one enable followed by `k - 1`
/// clones — that releases all `k` of them runs the clock-disable sequence
/// exactly once, on the release that makes the count zero: never earlier and
/// never again. Handles of one instance are interchangeable and releases of
/// other instances leave this one untouched (the frame conditions of
/// `Controller::release`), so the order of release does not matter. Until
/// the last release the instance's registers and power are untouched and
/// only the count falls; the last release leaves both muxes off, the
/// instance gated, and the count at zero.
pub proof fn lemma_disable_fires_exactly_once(v: InstView, k: nat)
    requires
        v.refcount == k,
        k >= 1,
    ensures
        forall|j: nat|
            j < k ==> (release_disables(#[trigger] after_releases(v, j)) <==> j == k - 1),
        forall|j: nat|
            j < k ==> #[trigger] after_releases(v, j) == (InstView {
                refcount: (k - j) as u8,
                ..v
            }),
        after_releases(v, k) == (InstView {
            fclksel: FcSel::Off,
            frgclksel: FrgSel::Off,
            powered: false,
            refcount: 0,
            ..v
        }),
{
    assert forall|j: nat|
        j < k implies #[trigger] after_releases(v, j) == (InstView {
        refcount: (k - j) as u8,
        ..v
    }) by {
        lemma_after_releases_shape(v, j);
    }
    lemma_after_releases_shape(v, (k - 1) as nat);
}

/// Law: enabling with a generator-fed source routes the primary mux through
/// the generator path and programs the generator mux to the matching
/// upstream; enabling with any other source leaves the generator mux off.
pub proof fn lemma_generator_mux_programming(prev: InstView, clock: Clock)
    ensures
        uses_frg(clock) ==> enable_effect(prev, clock).fclksel == FcSel::FcnFrg,
        enable_effect(prev, clock).frgclksel == frg_sel(clock),
        !uses_frg(clock) ==> enable_effect(prev, clock).frgclksel == FrgSel::Off,
{
}

/// Law: the teardown run by the last release leaves both muxes off and the
/// instance gated with no live handles, whatever clock source the prior
/// enable chose and whatever state the instance was in before it.
pub proof fn lemma_teardown_clears_muxes(prev: InstView, clock: Clock)
    ensures
        release_step(enable_effect(prev, clock)).fclksel == FcSel::Off,
        release_step(enable_effect(prev, clock)).frgclksel == FrgSel::Off,
        !release_step(enable_effect(prev, clock)).powered,
        release_step(enable_effect(prev, clock)).refcount == 0,
{
}

} // verus!
