//! The console: it owns the processor, the bus and the cartridge, clocks
//! the PPU three dots to each CPU cycle, runs OAM DMA, and hands NMIs from
//! the PPU to the processor.

use vstd::prelude::*;
use crate::bits::{make_word, word, zeroed};
use crate::bus::{idle_ports, Bus, BusView, Ports};
use crate::cartridge::{parse_image, Cartridge, CartridgeView, LoadError};
use crate::cpu::{machine, Machine, CPU};
use crate::ppu_proofs::lemma_step_advances_beam;
use crate::ppu::{
    beam_index, power_on, same_beam, skips_dot, PpuRegs, PpuView, PPU,
};

verus! {

pub const BUTTON_A: u8 = 0x01;
pub const BUTTON_B: u8 = 0x02;
pub const BUTTON_SELECT: u8 = 0x04;
pub const BUTTON_START: u8 = 0x08;
pub const BUTTON_UP: u8 = 0x10;
pub const BUTTON_DOWN: u8 = 0x20;
pub const BUTTON_LEFT: u8 = 0x40;
pub const BUTTON_RIGHT: u8 = 0x80;

/// The most master ticks that a frame can take.
pub const FRAME_TICKS: u64 = 89342;

/// The keys of the host keyboard that the console listens to.
#[derive(Clone, Copy, Debug, PartialEq, Eq, Structural)]
pub enum Key {
    Z,
    X,
    A,
    S,
    Up,
    Down,
    Left,
    Right,
    Other,
}

/// The state of the OAM DMA coordinator.
#[derive(Clone, Copy, Debug, PartialEq, Eq, Structural)]
pub struct Dma {
    pub page: u8,
    pub addr: u8,
    pub data: u8,
    pub transfer: bool,
    /// The transfer still waits for its alignment cycle.
    pub dummy: bool,
}

/// The counters and latches of the console itself.
#[derive(Clone, Copy, Debug, PartialEq, Eq, Structural)]
pub struct Control {
    /// Master ticks, which are PPU dots, since the last reset.
    pub cycles: u64,
    /// CPU cycles consumed since the last reset.
    pub cpu_cycles: u64,
    /// CPU cycles that the instruction in progress still has to pay.
    pub stall: u8,
    /// The PPU has raised an NMI that the processor has not yet taken.
    pub nmi_pending: bool,
    pub dma: Dma,
    /// A cartridge has been loaded.
    pub loaded: bool,
}

pub struct NES {
    pub cpu: CPU,
    pub bus: Bus,
    pub control: Control,
}

/// The mathematical state of the console.
pub ghost struct NesView {
    pub cpu: CPU,
    pub bus: BusView,
    pub control: Control,
}

pub open spec fn idle_dma() -> Dma {
    Dma { page: 0, addr: 0, data: 0, transfer: false, dummy: true }
}

pub open spec fn idle_control(loaded: bool) -> Control {
    Control {
        cycles: 0,
        cpu_cycles: 0,
        stall: 0,
        nmi_pending: false,
        dma: idle_dma(),
        loaded,
    }
}

/// The controller bit that a key of the host keyboard stands for, or 0.
pub open spec fn button_of(key: Key) -> u8 {
    match key {
        Key::Z => BUTTON_A,
        Key::X => BUTTON_B,
        Key::A => BUTTON_SELECT,
        Key::S => BUTTON_START,
        Key::Up => BUTTON_UP,
        Key::Down => BUTTON_DOWN,
        Key::Left => BUTTON_LEFT,
        Key::Right => BUTTON_RIGHT,
        Key::Other => 0,
    }
}

/// The console at power-on with a cartridge in its slot, before any reset.
pub open spec fn powered(cartridge: CartridgeView, loaded: bool) -> NesView {
    NesView {
        cpu: CPU::power_on(),
        bus: BusView {
            ppu: power_on(),
            cartridge,
            ram: Seq::new(2048, |i: int| 0u8),
            ports: idle_ports(),
        },
        control: idle_control(loaded),
    }
}

pub open spec fn empty_cartridge() -> CartridgeView {
    CartridgeView {
        prg: Seq::empty(),
        chr: Seq::empty(),
        mapper: 0,
        mirroring: crate::cartridge::Mirroring::Horizontal,
        chr_ram: false,
    }
}

impl NesView {
    pub open spec fn wf(self) -> bool {
        &&& self.bus.wf()
        &&& self.control.stall <= 8
        &&& self.control.cpu_cycles == self.control.cycles / 3
    }

    pub open spec fn machine(self) -> Machine {
        machine(self.cpu, self.bus)
    }

    pub open spec fn with_machine(self, m: Machine) -> NesView {
        NesView { cpu: m.cpu, bus: m.bus, ..self }
    }

    /// The buttons of controller 1 set to a mask; the shift register
    /// follows while the strobe is high.
    pub open spec fn set_buttons(self, buttons: u8) -> NesView {
        let ports = self.bus.ports;
        NesView {
            bus: BusView {
                ports: Ports {
                    controller1: buttons,
                    controller1_shift: if ports.controller_strobe {
                        buttons
                    } else {
                        ports.controller1_shift
                    },
                    ..ports
                },
                ..self.bus
            },
            ..self
        }
    }

    /// The console after a reset: without a cartridge nothing happens; with
    /// one, the processor is reset through the bus, the PPU registers are
    /// cleared, and the console's counters and the DMA coordinator start
    /// anew.
    pub open spec fn reset(self) -> NesView {
        if !self.control.loaded {
            self
        } else {
            let m = self.machine().reset();
            NesView {
                cpu: m.cpu,
                bus: BusView {
                    ppu: m.bus.ppu.reset(),
                    ports: Ports { dma_request: false, ..m.bus.ports },
                    ..m.bus
                },
                control: idle_control(true),
            }
        }
    }

    /// One cycle of a DMA transfer. The transfer waits until an even CPU
    /// cycle has passed, then reads a byte of the page on each odd cycle
    /// and stores it through `$2004` on each even one, 256 times.
    pub open spec fn dma_cycle(self, even: bool) -> NesView {
        let d = self.control.dma;
        if d.dummy {
            if even {
                NesView {
                    control: Control { dma: Dma { dummy: false, ..d }, ..self.control },
                    ..self
                }
            } else {
                self
            }
        } else if !even {
            let (data, bus) = self.bus.read(word(d.page, d.addr));
            NesView { bus, control: Control { dma: Dma { data, ..d }, ..self.control }, ..self }
        } else {
            let addr = d.addr.wrapping_add(1);
            NesView {
                bus: self.bus.write(0x2004, d.data),
                control: Control {
                    dma: if addr == 0 {
                        Dma { addr, transfer: false, dummy: true, ..d }
                    } else {
                        Dma { addr, ..d }
                    },
                    ..self.control
                },
                ..self
            }
        }
    }

    /// A requested DMA is begun: the coordinator takes the page and the
    /// request is cleared.
    pub open spec fn accept_dma(self) -> NesView {
        if self.bus.ports.dma_request {
            NesView {
                bus: BusView { ports: Ports { dma_request: false, ..self.bus.ports }, ..self.bus },
                control: Control {
                    dma: Dma {
                        page: self.bus.ports.dma_page,
                        addr: 0,
                        transfer: true,
                        dummy: true,
                        ..self.control.dma
                    },
                    ..self.control
                },
                ..self
            }
        } else {
            self
        }
    }

    /// One CPU cycle. A DMA transfer takes it if one runs or is asked for;
    /// else the instruction in progress pays it; else a pending NMI is
    /// taken, or the next instruction runs, and its further cycles are
    /// owed.
    #[verifier::opaque]
    pub open spec fn cpu_cycle(self) -> NesView {
        let even = self.control.cpu_cycles % 2 == 0;
        let s = NesView {
            control: Control {
                cpu_cycles: (self.control.cpu_cycles + 1) as u64,
                ..self.control
            },
            ..self
        }.accept_dma();
        if s.control.dma.transfer {
            s.dma_cycle(even)
        } else if s.control.stall > 0 {
            NesView { control: Control { stall: (s.control.stall - 1) as u8, ..s.control }, ..s }
        } else if s.control.nmi_pending {
            NesView {
                control: Control { nmi_pending: false, stall: 6, ..s.control },
                ..s.with_machine(s.machine().nmi())
            }
        } else {
            let (cycles, m) = s.machine().step();
            NesView {
                control: Control { stall: (cycles - 1) as u8, ..s.control },
                ..s.with_machine(m)
            }
        }
    }

    /// An NMI raised by the PPU is latched for the processor.
    pub open spec fn latch_nmi(self) -> NesView {
        if self.bus.ppu.regs.nmi_occurred {
            NesView {
                bus: BusView {
                    ppu: self.bus.ppu.with_regs(
                        PpuRegs { nmi_occurred: false, ..self.bus.ppu.regs },
                    ),
                    ..self.bus
                },
                control: Control { nmi_pending: true, ..self.control },
                ..self
            }
        } else {
            self
        }
    }

    /// One master tick: the PPU moves one dot; on every third tick a CPU
    /// cycle follows; then an NMI raised by the PPU is latched.
    #[verifier::opaque]
    pub open spec fn tick(self) -> NesView {
        let s = NesView {
            bus: BusView { ppu: self.bus.ppu.step(self.bus.cartridge), ..self.bus },
            control: Control { cycles: (self.control.cycles + 1) as u64, ..self.control },
            ..self
        };
        (if s.control.cycles % 3 == 0 {
            s.cpu_cycle()
        } else {
            s
        }).latch_nmi()
    }

    /// The console after `n` master ticks.
    pub open spec fn ticks(self, n: nat) -> NesView
        decreases n,
    {
        if n == 0 {
            self
        } else {
            self.ticks((n - 1) as nat).tick()
        }
    }

    /// The console after `n` CPU cycles, the dots between them left out.
    pub open spec fn cpu_cycles_on(self, n: nat) -> NesView
        decreases n,
    {
        if n == 0 {
            self
        } else {
            self.cpu_cycles_on((n - 1) as nat).cpu_cycle()
        }
    }

    pub open spec fn frame_complete(self) -> bool {
        self.bus.ppu.regs.frame_complete
    }

    /// The PPU completes a frame after exactly `n` ticks, and not before.
    pub open spec fn frame_ends_after(self, n: nat) -> bool {
        &&& self.ticks(n).frame_complete()
        &&& forall|m: nat| m < n ==> !(#[trigger] self.ticks(m)).frame_complete()
    }

    /// One of the first `n` ticks is the one on which an odd frame leaves
    /// out a dot.
    pub open spec fn skips_within(self, n: nat) -> bool {
        exists|m: nat| m < n && skips_dot((#[trigger] self.ticks(m)).bus.ppu.regs)
    }

    /// `after` is the console once the frame in progress has been run to
    /// its end in `n` ticks and taken. From a beam at dot `d` of the frame
    /// that is `89342 - d` ticks, or one less if a dot was left out.
    pub open spec fn runs_frame_to(self, n: nat, after: NesView) -> bool {
        &&& n <= 89342
        &&& self.frame_ends_after(n)
        &&& after == self.ticks(n).with_frame_taken()
        &&& !self.frame_complete() ==> n + beam_index(self.bus.ppu.regs) + (if self.skips_within(
            n,
        ) {
            1int
        } else {
            0int
        }) == 89342
    }

    pub open spec fn with_frame_taken(self) -> NesView {
        NesView {
            bus: BusView {
                ppu: self.bus.ppu.with_regs(
                    PpuRegs { frame_complete: false, ..self.bus.ppu.regs },
                ),
                ..self.bus
            },
            ..self
        }
    }
}

fn button(key: Key) -> (mask: u8)
    ensures
        mask == button_of(key),
{
    match key {
        Key::Z => BUTTON_A,
        Key::X => BUTTON_B,
        Key::A => BUTTON_SELECT,
        Key::S => BUTTON_START,
        Key::Up => BUTTON_UP,
        Key::Down => BUTTON_DOWN,
        Key::Left => BUTTON_LEFT,
        Key::Right => BUTTON_RIGHT,
        Key::Other => 0,
    }
}

fn fresh_control(loaded: bool) -> (c: Control)
    ensures
        c == idle_control(loaded),
{
    Control {
        cycles: 0,
        cpu_cycles: 0,
        stall: 0,
        nmi_pending: false,
        dma: Dma { page: 0, addr: 0, data: 0, transfer: false, dummy: true },
        loaded,
    }
}

impl NES {
    pub open spec fn view(&self) -> NesView {
        NesView { cpu: self.cpu, bus: self.bus@, control: self.control }
    }

    /// The bus is well formed, at most eight cycles are owed, and the CPU
    /// has had one cycle for every three master ticks.
    pub open spec fn wf(&self) -> bool {
        self@.wf()
    }

    fn with_cartridge(cartridge: Cartridge, loaded: bool) -> (nes: NES)
        ensures
            nes.wf(),
            nes@ == powered(cartridge@, loaded),
    {
        let nes = NES {
            cpu: CPU::new(),
            bus: Bus::new(PPU::new(), cartridge, zeroed(2048)),
            control: fresh_control(loaded),
        };
        assert(nes@ =~= powered(cartridge@, loaded));
        nes
    }

    /// A console without a cartridge.
    pub fn new() -> (nes: NES)
        ensures
            nes.wf(),
            nes@ == powered(empty_cartridge(), false),
    {
        NES::with_cartridge(Cartridge::dummy(), false)
    }

    /// Loads a cartridge from an iNES image and resets the console. An
    /// image that is refused leaves the console as it was.
    pub fn load_cartridge(&mut self, image: &[u8]) -> (r: Result<(), LoadError>)
        requires
            old(self).wf(),
        ensures
            final(self).wf(),
            match parse_image(image@) {
                Ok(c) => r is Ok && final(self)@ == powered(c, true).reset(),
                Err(e) => r == Err::<(), LoadError>(e) && final(self)@ == old(self)@,
            },
    {
        match Cartridge::new(image) {
            Ok(cartridge) => {
                *self = NES::with_cartridge(cartridge, true);
                self.reset();
                Ok(())
            },
            Err(e) => Err(e),
        }
    }

    /// Resets the console.
    pub fn reset(&mut self)
        requires
            old(self).wf(),
        ensures
            final(self).wf(),
            final(self)@ == old(self)@.reset(),
    {
        if self.control.loaded {
            self.cpu.reset(&mut self.bus);
            self.bus.ppu.reset();
            self.bus.ports.dma_request = false;
            self.control = fresh_control(true);
        }
    }

    fn dma_cycle(&mut self, even: bool)
        requires
            old(self).bus.wf(),
        ensures
            final(self).bus.wf(),
            final(self)@ == old(self)@.dma_cycle(even),
            same_beam(old(self)@.bus.ppu, final(self)@.bus.ppu),
    {
        if self.control.dma.dummy {
            if even {
                self.control.dma.dummy = false;
            }
        } else if !even {
            let addr: u16 = make_word(self.control.dma.page, self.control.dma.addr);
            self.control.dma.data = self.bus.read(addr);
        } else {
            self.bus.write(0x2004, self.control.dma.data);
            self.control.dma.addr = self.control.dma.addr.wrapping_add(1);
            if self.control.dma.addr == 0 {
                self.control.dma.transfer = false;
                self.control.dma.dummy = true;
            }
        }
    }

    fn cpu_cycle(&mut self)
        requires
            old(self).bus.wf(),
            old(self).control.stall <= 8,
            old(self).control.cpu_cycles < u64::MAX,
        ensures
            final(self).bus.wf(),
            final(self).control.stall <= 8,
            final(self)@ == old(self)@.cpu_cycle(),
            final(self).control.cpu_cycles == old(self).control.cpu_cycles + 1,
            final(self).control.cycles == old(self).control.cycles,
            final(self).control.loaded == old(self).control.loaded,
            same_beam(old(self)@.bus.ppu, final(self)@.bus.ppu),
    {
        proof {
            reveal(NesView::cpu_cycle);
        }
        let even: bool = self.control.cpu_cycles % 2 == 0;
        self.control.cpu_cycles = self.control.cpu_cycles + 1;
        if self.bus.ports.dma_request {
            self.bus.ports.dma_request = false;
            self.control.dma.page = self.bus.ports.dma_page;
            self.control.dma.addr = 0;
            self.control.dma.transfer = true;
            self.control.dma.dummy = true;
        }
        if self.control.dma.transfer {
            self.dma_cycle(even);
        } else if self.control.stall > 0 {
            self.control.stall = self.control.stall - 1;
        } else if self.control.nmi_pending {
            self.cpu.nmi(&mut self.bus);
            self.control.nmi_pending = false;
            self.control.stall = 6;
        } else {
            let cycles: u8 = self.cpu.step(&mut self.bus);
            self.control.stall = cycles - 1;
        }
    }

    /// Advances the console by one master tick. Without a cartridge nothing
    /// happens.
    #[verifier::spinoff_prover]
    #[verifier::rlimit(60)]
    pub fn clock(&mut self)
        requires
            old(self).wf(),
            old(self).control.cycles < u64::MAX,
        ensures
            final(self).wf(),
            final(self)@ == (if old(self).control.loaded {
                old(self)@.tick()
            } else {
                old(self)@
            }),
            final(self).control.loaded == old(self).control.loaded,
            old(self).control.loaded ==> final(self).control.cycles == old(self).control.cycles
                + 1,
            old(self).control.loaded ==> same_beam(
                old(self)@.bus.ppu.step(old(self)@.bus.cartridge),
                final(self)@.bus.ppu,
            ),
    {
        proof {
            reveal(NesView::tick);
        }
        if !self.control.loaded {
            return ;
        }
        self.bus.ppu.step(&self.bus.cartridge);
        self.control.cycles = self.control.cycles + 1;
        if self.control.cycles % 3 == 0 {
            self.cpu_cycle();
        }
        if self.bus.ppu.regs.nmi_occurred {
            self.bus.ppu.regs.nmi_occurred = false;
            self.control.nmi_pending = true;
        }
    }

    /// Runs the console until the PPU completes a frame, and takes the
    /// frame. Without a cartridge nothing happens.
    #[verifier::spinoff_prover]
    #[verifier::rlimit(60)]
    pub fn run_frame(&mut self)
        requires
            old(self).wf(),
            old(self).control.cycles <= u64::MAX - FRAME_TICKS,
        ensures
            final(self).wf(),
            !old(self).control.loaded ==> final(self)@ == old(self)@,
            old(self).control.loaded ==> exists|n: nat|
                old(self)@.runs_frame_to(n, final(self)@),
            final(self).control.loaded == old(self).control.loaded,
            old(self).control.cycles <= final(self).control.cycles <= old(self).control.cycles
                + FRAME_TICKS,
    {
        if !self.control.loaded {
            return ;
        }
        let ghost start = self@;
        let ghost mut n: nat = 0;
        let ghost mut skipped: bool = false;
        while !self.bus.ppu.regs.frame_complete
            invariant
                self.wf(),
                self.control.loaded,
                self@ == start.ticks(n),
                forall|m: nat| m < n ==> !(#[trigger] start.ticks(m)).frame_complete(),
                skipped == start.skips_within(n),
                skipped ==> beam_index(self.bus.ppu.regs) > 341 || self.bus.ppu.regs.frame_complete,
                n + (if self.bus.ppu.regs.frame_complete {
                    0int
                } else {
                    89342 - beam_index(self.bus.ppu.regs)
                }) <= 89342,
                n + beam_index(start.bus.ppu.regs) + (if skipped {
                    1int
                } else {
                    0int
                }) == (if self.bus.ppu.regs.frame_complete && n > 0 {
                    89342int
                } else {
                    beam_index(self.bus.ppu.regs)
                }),
                self.control.cycles == start.control.cycles + n,
                start.control.cycles <= u64::MAX - FRAME_TICKS,
            decreases
                    (if self.bus.ppu.regs.frame_complete {
                        0int
                    } else {
                        89342 - beam_index(self.bus.ppu.regs)
                    }),
        {
            proof {
                lemma_step_advances_beam(self@.bus.ppu, self@.bus.cartridge);
                assert(start.ticks(n + 1) == start.ticks(n).tick());
                let now = skips_dot(self.bus.ppu.regs);
                assert(start.skips_within(n + 1) == (skipped || now)) by {
                    if start.skips_within(n + 1) {
                        let m = choose|m: nat|
                            m < n + 1 && skips_dot((#[trigger] start.ticks(m)).bus.ppu.regs);
                        if m < n {
                            assert(start.skips_within(n));
                        }
                    }
                    if skipped {
                        let m = choose|m: nat|
                            m < n && skips_dot((#[trigger] start.ticks(m)).bus.ppu.regs);
                        assert(m < n + 1);
                    }
                    if now {
                        assert(skips_dot(start.ticks(n).bus.ppu.regs));
                    }
                }
                skipped = skipped || now;
            }
            self.clock();
            proof {
                n = n + 1;
            }
        }
        assert(start.frame_ends_after(n));
        self.bus.ppu.frame_done();
        assert(self@ =~= start.ticks(n).with_frame_taken());
        assert(start.runs_frame_to(n, self@));
    }

    /// Whether the PPU has completed a frame that has not been taken.
    pub fn frame_ready(&self) -> (ready: bool)
        ensures
            ready == self@.frame_complete(),
    {
        self.bus.ppu.frame_ready()
    }

    /// Takes the completed frame.
    pub fn frame_done(&mut self)
        ensures
            final(self)@ == old(self)@.with_frame_taken(),
    {
        self.bus.ppu.frame_done();
    }

    /// The frame as 256 by 240 pixels of three bytes, red, green and blue.
    pub fn get_frame_buffer(&self) -> (frame: &[u8])
        ensures
            frame@ == self@.bus.ppu.frame,
            self.wf() ==> frame@.len() == 256 * 240 * 3,
    {
        self.bus.ppu.get_frame_buffer()
    }

    /// The number of CPU cycles consumed since the last reset.
    pub fn cpu_cycles(&self) -> (n: u64)
        ensures
            n == self.control.cpu_cycles,
    {
        self.control.cpu_cycles
    }

    /// Sets the buttons of controller 1: A, B, Select, Start, Up, Down, Left,
    /// Right from bit 0 up.
    pub fn set_controller_state(&mut self, buttons: u8)
        ensures
            final(self)@ == old(self)@.set_buttons(buttons),
    {
        self.bus.ports.controller1 = buttons;
        if self.bus.ports.controller_strobe {
            self.bus.ports.controller1_shift = buttons;
        }
    }

    /// Holds the button that a key stands for.
    pub fn handle_key_down(&mut self, key: Key)
        ensures
            final(self)@ == old(self)@.set_buttons(
                old(self).bus.ports.controller1 | button_of(key),
            ),
    {
        let buttons: u8 = self.bus.ports.controller1 | button(key);
        self.set_controller_state(buttons);
    }

    /// Releases the button that a key stands for.
    pub fn handle_key_up(&mut self, key: Key)
        ensures
            final(self)@ == old(self)@.set_buttons(
                old(self).bus.ports.controller1 & !button_of(key),
            ),
    {
        let buttons: u8 = self.bus.ports.controller1 & !button(key);
        self.set_controller_state(buttons);
    }

    /// A read by the processor through the bus.
    pub fn cpu_read(&mut self, addr: u16) -> (data: u8)
        requires
            old(self).wf(),
        ensures
            final(self).wf(),
            (data, final(self)@.bus) == old(self)@.bus.read(addr),
            final(self).cpu == old(self).cpu,
            final(self).control == old(self).control,
    {
        self.bus.read(addr)
    }

    /// A write by the processor through the bus.
    pub fn cpu_write(&mut self, addr: u16, data: u8)
        requires
            old(self).wf(),
        ensures
            final(self).wf(),
            final(self)@.bus == old(self)@.bus.write(addr, data),
            final(self).cpu == old(self).cpu,
            final(self).control == old(self).control,
    {
        self.bus.write(addr, data);
    }
}

} // verus!
