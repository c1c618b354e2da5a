//! What holds of the console's clock: the cadence of PPU dots and CPU
//! cycles, the length of an OAM DMA, and the controller's snapshot.

use vstd::prelude::*;
use crate::bus::BusView;
use crate::cartridge::CartridgeView;
use crate::nes::{powered, NesView};

verus! {

/// One tick adds one to the count of master ticks, and one to the count of
/// CPU cycles if the new count of ticks is a multiple of three.
pub proof fn lemma_tick_counters(s: NesView)
    requires
        s.control.cycles < u64::MAX,
        s.control.cpu_cycles <= s.control.cycles,
    ensures
        s.tick().control.cycles == s.control.cycles + 1,
        s.tick().control.cpu_cycles == s.control.cpu_cycles + (if (s.control.cycles + 1) % 3 == 0 {
            1int
        } else {
            0int
        }),
        s.tick().control.loaded == s.control.loaded,
{
    reveal(NesView::tick);
    reveal(NesView::cpu_cycle);
}

/// After any number of master ticks the PPU has had three dots for each
/// CPU cycle and at most two more: with `d` dots and `c` CPU cycles,
/// `3c <= d <= 3c + 2`.
pub proof fn lemma_cadence(s: NesView, k: nat)
    requires
        s.control.cpu_cycles == s.control.cycles / 3,
        s.control.cycles + k <= u64::MAX,
    ensures
        s.ticks(k).control.cycles == s.control.cycles + k,
        s.ticks(k).control.cpu_cycles == s.ticks(k).control.cycles / 3,
        s.ticks(k).control.cpu_cycles * 3 <= s.ticks(k).control.cycles <= s.ticks(
            k,
        ).control.cpu_cycles * 3 + 2,
    decreases k,
{
    if k > 0 {
        lemma_cadence(s, (k - 1) as nat);
        lemma_tick_counters(s.ticks((k - 1) as nat));
    }
}

/// Setting the buttons while the strobe is low leaves the shift register
/// that `$4016` reads as it was; while the strobe is high the register
/// follows the buttons.
pub proof fn lemma_buttons_and_snapshot(s: NesView, buttons: u8)
    ensures
        !s.bus.ports.controller_strobe ==> s.set_buttons(buttons).bus.ports.controller1_shift
            == s.bus.ports.controller1_shift,
        s.bus.ports.controller_strobe ==> s.set_buttons(buttons).bus.ports.controller1_shift
            == buttons,
        s.set_buttons(buttons).set_buttons(buttons) == s.set_buttons(buttons),
{
}

/// A write to `$4016` that takes the strobe from high to low leaves the
/// buttons in the shift register, and eight reads then give them from bit
/// 0 up.
pub proof fn lemma_strobe_then_read(b: BusView, data: u8)
    requires
        b.ports.controller_strobe,
        data % 2 == 0,
    ensures
        b.write(0x4016, data).ports.controller1_shift == b.ports.controller1,
        !b.write(0x4016, data).ports.controller_strobe,
        b.write(0x4016, data).read(0x4016).0 == b.ports.controller1 % 2,
        b.write(0x4016, data).read(0x4016).1.ports.controller1_shift == b.ports.controller1 / 2,
{
    reveal(BusView::read);
    reveal(BusView::write);
}

/// The number of cycles that a DMA begun at a CPU cycle of the given
/// parity waits before its first read: one if the cycle is even, two if it
/// is odd.
pub open spec fn dma_lead(even: bool) -> nat {
    if even {
        1
    } else {
        2
    }
}

/// `t` is the console `k` CPU cycles after a DMA was asked for in `s`: the
/// processor has not moved, and the coordinator is waiting, or has copied
/// the bytes that the cycles so far allow, or is done after 256 of them.
pub open spec fn dma_progress(s: NesView, t: NesView, k: nat) -> bool {
    let lead = dma_lead(s.control.cpu_cycles % 2 == 0);
    let d = t.control.dma;
    &&& t.cpu == s.cpu
    &&& t.control.stall == s.control.stall
    &&& t.control.nmi_pending == s.control.nmi_pending
    &&& t.control.cycles == s.control.cycles
    &&& t.control.cpu_cycles == s.control.cpu_cycles + k
    &&& !t.bus.ports.dma_request
    &&& d.page == s.bus.ports.dma_page
    &&& if k < lead {
        d.transfer && d.dummy && d.addr == 0
    } else if k - lead < 512 {
        d.transfer && !d.dummy && d.addr == (k - lead) / 2
    } else {
        !d.transfer && d.dummy && d.addr == 0
    }
}

/// Reads and the write to `$2004` that a DMA makes leave the DMA port
/// alone.
proof fn lemma_dma_access_keeps_ports(b: BusView, addr: u16, data: u8)
    ensures
        b.read(addr).1.ports.dma_request == b.ports.dma_request,
        b.read(addr).1.ports.dma_page == b.ports.dma_page,
        b.write(0x2004, data).ports == b.ports,
{
    reveal(BusView::read);
    reveal(BusView::write);
}

proof fn lemma_dma_progress(s: NesView, k: nat)
    requires
        s.bus.ports.dma_request,
        s.control.cpu_cycles + 514 <= u64::MAX,
        1 <= k <= dma_lead(s.control.cpu_cycles % 2 == 0) + 512,
    ensures
        dma_progress(s, s.cpu_cycles_on(k), k),
    decreases k,
{
    reveal(NesView::cpu_cycle);
    if k == 1 {
        assert(s.cpu_cycles_on(0) == s);
        assert(s.cpu_cycles_on(1) == s.cpu_cycle());
    } else {
        lemma_dma_progress(s, (k - 1) as nat);
        let t = s.cpu_cycles_on((k - 1) as nat);
        assert(s.cpu_cycles_on(k) == t.cpu_cycle());
        let d = t.control.dma;
        lemma_dma_access_keeps_ports(t.bus, crate::bits::word(d.page, d.addr), d.data);
    }
}

/// An OAM DMA keeps the processor for 513 CPU cycles if the first of them
/// is an even cycle and for 514 if it is odd: so long the coordinator is
/// busy, then it is idle again, and the processor is as it was.
pub proof fn lemma_dma_stall(s: NesView)
    requires
        s.bus.ports.dma_request,
        s.control.cpu_cycles + 514 <= u64::MAX,
    ensures
        ({
            let d: nat = if s.control.cpu_cycles % 2 == 0 {
                513
            } else {
                514
            };
            &&& forall|k: nat| 1 <= k < d ==> (#[trigger] s.cpu_cycles_on(k)).control.dma.transfer
            &&& !s.cpu_cycles_on(d).control.dma.transfer
            &&& s.cpu_cycles_on(d).cpu == s.cpu
            &&& s.cpu_cycles_on(d).control.stall == s.control.stall
        }),
{
    let d: nat = if s.control.cpu_cycles % 2 == 0 {
        513
    } else {
        514
    };
    assert forall|k: nat| 1 <= k < d implies (#[trigger] s.cpu_cycles_on(
        k,
    )).control.dma.transfer by {
        lemma_dma_progress(s, k);
    }
    lemma_dma_progress(s, d);
}


/// What a load leaves is a function of the image alone, and a reset of a
/// console just loaded changes nothing: load, reset, load, reset ends in the
/// state that the first load and reset ended in.
pub proof fn lemma_reset_after_load(cartridge: CartridgeView)
    ensures
        powered(cartridge, true).reset().reset() == powered(cartridge, true).reset(),
{
    reveal(BusView::read);
    let loaded = powered(cartridge, true).reset();
    assert(loaded.reset().bus.ppu =~= loaded.bus.ppu);
    assert(loaded.reset().bus =~= loaded.bus);
    assert(loaded.reset() =~= loaded);
}

} // verus!
