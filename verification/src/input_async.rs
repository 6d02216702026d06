//! Interrupt-to-wake bridge for input pads.
//!
//! [`GpioState`] is a fixed table with one suspension slot per pin. A
//! task that finds its pin's condition not yet true leaves its waker in
//! the slot; the interrupt service routine [`GpioState::on_interrupt`]
//! walks every slot in index order, wakes the waker of every pin whose
//! pending interrupt bit is set, and clears that bit. A pending bit with
//! no registered waker is cleared silently, and a registered waker whose
//! pin has no pending event stays registered: there is no latched-for-
//! later semantics, the live condition is the single source of truth.

use vstd::prelude::*;

use core::task::Waker;

use crate::glb::v2;

verus! {

/// Opaque handle that resumes one suspended task.
///
/// Relies on `core::task::Waker` being a plain value: the library only
/// stores, moves and wakes it.
#[verifier::external_type_specification]
#[verifier::external_body]
pub struct ExWaker(Waker);

/// Relies on `core::task::Waker::wake`: consuming the handle resumes its
/// task. Waking a task that is gone is documented as a safe no-op, so
/// nothing is stated or assumed about the call's effect.
pub assume_specification[ Waker::wake ](w: Waker);

/// Number of suspension slots: one per pin of the per-pin register
/// layout.
pub const MAX_PADS: usize = 46;

/// Whether the pending interrupt bit of one pin configuration register is
/// set.
pub open spec fn spec_pending(cfg: v2::GpioConfig) -> bool {
    cfg.0 & v2::INTERRUPT_PENDING_BIT != 0
}

/// The configuration word of a pin after the service routine cleared its
/// pending bit.
pub open spec fn spec_serviced(cfg: v2::GpioConfig) -> v2::GpioConfig {
    v2::GpioConfig(
        v2::RegisterBlock::spec_config_after_write(cfg.0, cfg.0 | v2::INTERRUPT_CLEAR_BIT),
    )
}

/// How one call of [`GpioState::on_interrupt`] relates the configuration
/// registers and the suspension slots before and after: every pin with a
/// pending event has its slot emptied and its pending bit cleared, with
/// the rest of its register untouched; every pin without a pending event
/// keeps both its register and its slot.
pub open spec fn on_interrupt_rel(
    cfg0: Seq<v2::GpioConfig>,
    slots0: Seq<Option<Waker>>,
    cfg1: Seq<v2::GpioConfig>,
    slots1: Seq<Option<Waker>>,
) -> bool {
    &&& cfg1.len() == cfg0.len()
    &&& slots1.len() == slots0.len()
    &&& slots0.len() == cfg0.len()
    &&& forall|k: int|
        0 <= k < cfg0.len() ==> if spec_pending(#[trigger] cfg0[k]) {
            cfg1[k] == spec_serviced(cfg0[k]) && slots1[k] is None
        } else {
            cfg1[k] == cfg0[k] && slots1[k] == slots0[k]
        }
}

/// The set of wakers for the GPIO peripheral: one suspension slot per
/// pin.
///
/// At most one suspension is outstanding per pin; registering a new waker
/// supersedes the old one (last waiter wins).
pub struct GpioState {
    /// The suspension slots, indexed by pin number.
    pub pads: Vec<Option<Waker>>,
}

impl GpioState {
    /// The table is well-formed: it holds one slot per pin.
    pub open spec fn wf(self) -> bool {
        self.pads@.len() == MAX_PADS
    }

    /// Creates the set of wakers for the GPIO peripheral, with every slot
    /// empty.
    pub fn new() -> (r: GpioState)
        ensures
            r.wf(),
            forall|k: int| 0 <= k < MAX_PADS ==> #[trigger] r.pads@[k] is None,
    {
        let mut pads: Vec<Option<Waker>> = Vec::new();
        let mut i: usize = 0;
        while i < MAX_PADS
            invariant
                i <= MAX_PADS,
                pads@.len() == i,
                forall|k: int| 0 <= k < i ==> #[trigger] pads@[k] is None,
            decreases MAX_PADS - i,
        {
            pads.push(Option::None);
            i = i + 1;
        }
        GpioState { pads }
    }

    /// Store `waker` in pin `n`'s suspension slot, superseding any waker
    /// already there: the last registration wins.
    pub fn register(&mut self, n: usize, waker: Waker)
        requires
            old(self).wf(),
            n < MAX_PADS,
        ensures
            final(self).wf(),
            final(self).pads@ == old(self).pads@.update(n as int, Some(waker)),
    {
        self.pads[n] = Option::Some(waker);
    }

    /// Whether a waker is currently registered for pin `n`.
    pub fn is_registered(&self, n: usize) -> (r: bool)
        requires
            self.wf(),
            n < MAX_PADS,
        ensures
            r == (self.pads@[n as int] is Some),
    {
        self.pads[n].is_some()
    }

    /// One poll step of a task waiting for pin `n`'s condition.
    ///
    /// If the pin's interrupt is already pending, the wait is over and
    /// nothing is registered. Otherwise the waker is left in the pin's
    /// slot, to be resumed by [`GpioState::on_interrupt`]; the hardware
    /// interrupt, not the registration, is the single source of truth, so
    /// the routine tolerates firing concurrently with registration.
    pub fn poll_wait(&mut self, glb: &v2::RegisterBlock, n: usize, waker: Waker) -> (ready: bool)
        requires
            old(self).wf(),
            glb.wf(),
            n < MAX_PADS,
        ensures
            final(self).wf(),
            ready == spec_pending(glb.gpio_config@[n as int]),
            ready ==> final(self).pads@ == old(self).pads@,
            !ready ==> final(self).pads@ == old(self).pads@.update(n as int, Some(waker)),
    {
        if glb.gpio_config[n].has_interrupt() {
            true
        } else {
            self.register(n, waker);
            false
        }
    }

    /// Use this waker set to handle an interrupt.
    ///
    /// Walks every pin slot in index order. For each pin whose pending
    /// interrupt bit is set, the registered waker, if any, is taken and
    /// woken, and the pending bit is cleared — also when no waker was
    /// registered, since a wake with no consumer is lost by design: the
    /// consumer's next poll re-checks the live condition. Pins without a
    /// pending event are left completely untouched, so a second call with
    /// no new hardware event changes nothing and wakes nobody.
    pub fn on_interrupt(&mut self, glb: &mut v2::RegisterBlock)
        requires
            old(self).wf(),
            old(glb).wf(),
        ensures
            final(self).wf(),
            final(glb).wf(),
            on_interrupt_rel(
                old(glb).gpio_config@,
                old(self).pads@,
                final(glb).gpio_config@,
                final(self).pads@,
            ),
            forall|k: int|
                0 <= k < v2::GPIO_CONFIG_COUNT ==> !spec_pending(
                    #[trigger] final(glb).gpio_config@[k],
                ),
            final(glb).gpio_input == old(glb).gpio_input,
            final(glb).gpio_output == old(glb).gpio_output,
            final(glb).uart_mux_group == old(glb).uart_mux_group,
    {
        let mut pad_id: usize = 0;
        while pad_id < MAX_PADS
            invariant
                self.wf(),
                glb.wf(),
                pad_id <= MAX_PADS,
                forall|k: int|
                    0 <= k < pad_id ==> if spec_pending(#[trigger] old(glb).gpio_config@[k]) {
                        glb.gpio_config@[k] == spec_serviced(old(glb).gpio_config@[k])
                            && self.pads@[k] is None
                    } else {
                        glb.gpio_config@[k] == old(glb).gpio_config@[k] && self.pads@[k] == old(
                            self,
                        ).pads@[k]
                    },
                forall|k: int|
                    pad_id <= k < MAX_PADS ==> glb.gpio_config@[k] == old(glb).gpio_config@[k]
                        && self.pads@[k] == old(self).pads@[k],
                forall|k: int|
                    0 <= k < pad_id ==> !spec_pending(#[trigger] glb.gpio_config@[k]),
                glb.gpio_input == old(glb).gpio_input,
                glb.gpio_output == old(glb).gpio_output,
                glb.uart_mux_group == old(glb).uart_mux_group,
            decreases MAX_PADS - pad_id,
        {
            if glb.gpio_config[pad_id].has_interrupt() {
                let taken = self.pads[pad_id].take();
                match taken {
                    Option::Some(waker) => waker.wake(),
                    Option::None => {},
                }
                let config = glb.gpio_config[pad_id].clear_interrupt();
                proof {
                    let o = glb.gpio_config@[pad_id as int].0;
                    assert(((o | 0x10_0000u32) & !(0x10_0000u32 | 0x20_0000u32)) & 0x20_0000u32
                        == 0) by (bit_vector);
                    assert((o | 0x10_0000u32) & 0x10_0000u32 != 0) by (bit_vector);
                }
                glb.write_gpio_config(pad_id, config);
            }
            pad_id = pad_id + 1;
        }
    }
}

/// A second service pass with no new hardware event is a no-op: after one
/// call of [`GpioState::on_interrupt`] has cleared every pending bit,
/// another call leaves every configuration register and every suspension
/// slot exactly as it found them — in particular it takes no waker, so no
/// second wake occurs.
pub proof fn on_interrupt_idempotent(
    cfg0: Seq<v2::GpioConfig>,
    slots0: Seq<Option<Waker>>,
    cfg1: Seq<v2::GpioConfig>,
    slots1: Seq<Option<Waker>>,
    cfg2: Seq<v2::GpioConfig>,
    slots2: Seq<Option<Waker>>,
)
    requires
        on_interrupt_rel(cfg0, slots0, cfg1, slots1),
        forall|k: int| 0 <= k < cfg1.len() ==> !spec_pending(#[trigger] cfg1[k]),
        on_interrupt_rel(cfg1, slots1, cfg2, slots2),
    ensures
        cfg2 == cfg1,
        slots2 == slots1,
{
    assert forall|k: int| 0 <= k < cfg1.len() implies cfg2[k] == cfg1[k] && slots2[k]
        == slots1[k] by {
        assert(!spec_pending(cfg1[k]));
    }
    assert(cfg2 =~= cfg1);
    assert(slots2 =~= slots1);
}

} // verus!
