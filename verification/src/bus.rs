//! The CPU-side address decoder: internal RAM, the PPU registers, the OAM
//! DMA port, the controller port and the cartridge.

use vstd::prelude::*;
use crate::cartridge::{Cartridge, CartridgeView};
use crate::ppu::{same_beam, PpuView, PPU};

verus! {

/// The latches behind the I/O ports at `$4014` and `$4016`.
#[derive(Clone, Copy, Debug, PartialEq, Eq, Structural)]
pub struct Ports {
    /// The buttons of controller 1 as last set: A, B, Select, Start, Up,
    /// Down, Left, Right from bit 0 up.
    pub controller1: u8,
    /// The shift register that `$4016` reads, bit 0 first.
    pub controller1_shift: u8,
    pub controller_strobe: bool,
    /// A write to `$4014` asks for an OAM DMA that the console has not yet
    /// begun.
    pub dma_request: bool,
    pub dma_page: u8,
}

pub struct Bus {
    pub ppu: PPU,
    pub cartridge: Cartridge,
    pub ram: Vec<u8>,
    pub ports: Ports,
}

/// The mathematical state of everything the CPU reaches through the bus.
pub ghost struct BusView {
    pub ppu: PpuView,
    pub cartridge: CartridgeView,
    pub ram: Seq<u8>,
    pub ports: Ports,
}

/// The ports with no button held, the strobe low and no DMA asked for.
pub open spec fn idle_ports() -> Ports {
    Ports {
        controller1: 0,
        controller1_shift: 0,
        controller_strobe: false,
        dma_request: false,
        dma_page: 0,
    }
}

impl BusView {
    pub open spec fn wf(self) -> bool {
        self.ppu.wf() && self.ram.len() == 2048
    }

    /// A read by the CPU: the byte returned and the bus after. Reads of
    /// PPU registers and of the controller port change state; unmapped
    /// addresses read as 0.
    #[verifier::opaque]
    pub open spec fn read(self, addr: u16) -> (u8, BusView) {
        if addr < 0x2000 {
            (self.ram[addr as int % 2048], self)
        } else if addr < 0x4000 {
            let (data, ppu) = self.ppu.cpu_read(self.cartridge, (0x2000 + addr % 8) as u16);
            (data, BusView { ppu, ..self })
        } else if addr == 0x4016 {
            if self.ports.controller_strobe {
                (self.ports.controller1 % 2, self)
            } else {
                (
                    self.ports.controller1_shift % 2,
                    BusView {
                        ports: Ports {
                            controller1_shift: self.ports.controller1_shift / 2,
                            ..self.ports
                        },
                        ..self
                    },
                )
            }
        } else if addr >= 0x8000 {
            (self.cartridge.read_prg((addr - 0x8000) as u16), self)
        } else {
            (0, self)
        }
    }

    /// The bus after a write by the CPU. A write to `$4014` asks for an OAM
    /// DMA from the page written; a write to `$4016` sets the strobe, and
    /// the shift register takes the buttons while the strobe is high and as
    /// it falls.
    #[verifier::opaque]
    pub open spec fn write(self, addr: u16, data: u8) -> BusView {
        if addr < 0x2000 {
            BusView { ram: self.ram.update(addr as int % 2048, data), ..self }
        } else if addr < 0x4000 {
            let (ppu, cartridge) = self.ppu.cpu_write(
                self.cartridge,
                (0x2000 + addr % 8) as u16,
                data,
            );
            BusView { ppu, cartridge, ..self }
        } else if addr == 0x4014 {
            BusView { ports: Ports { dma_request: true, dma_page: data, ..self.ports }, ..self }
        } else if addr == 0x4016 {
            let strobe = data % 2 == 1;
            BusView {
                ports: Ports {
                    controller_strobe: strobe,
                    controller1_shift: if strobe || self.ports.controller_strobe {
                        self.ports.controller1
                    } else {
                        self.ports.controller1_shift
                    },
                    ..self.ports
                },
                ..self
            }
        } else {
            self
        }
    }
}

impl Bus {
    pub open spec fn view(&self) -> BusView {
        BusView { ppu: self.ppu@, cartridge: self.cartridge@, ram: self.ram@, ports: self.ports }
    }

    /// The PPU is well formed and the RAM has its 2 KiB.
    pub open spec fn wf(&self) -> bool {
        self@.wf()
    }

    /// A bus over a PPU, a cartridge and 2 KiB of RAM, with idle ports.
    pub fn new(ppu: PPU, cartridge: Cartridge, ram: Vec<u8>) -> (bus: Bus)
        requires
            ppu.wf(),
            ram@.len() == 2048,
        ensures
            bus.wf(),
            bus@ == (BusView { ppu: ppu@, cartridge: cartridge@, ram: ram@, ports: idle_ports() }),
    {
        Bus {
            ppu,
            cartridge,
            ram,
            ports: Ports {
                controller1: 0,
                controller1_shift: 0,
                controller_strobe: false,
                dma_request: false,
                dma_page: 0,
            },
        }
    }

    /// Reads a byte for the CPU.
    pub fn read(&mut self, addr: u16) -> (data: u8)
        requires
            old(self).wf(),
        ensures
            final(self).wf(),
            (data, final(self)@) == old(self)@.read(addr),
            same_beam(old(self)@.ppu, final(self)@.ppu),
    {
        proof {
            reveal(BusView::read);
        }
        if addr < 0x2000 {
            self.ram[(addr as usize) % 2048]
        } else if addr < 0x4000 {
            self.ppu.cpu_read(0x2000 + addr % 8, &self.cartridge)
        } else if addr == 0x4016 {
            if self.ports.controller_strobe {
                self.ports.controller1 % 2
            } else {
                let data: u8 = self.ports.controller1_shift % 2;
                self.ports.controller1_shift = self.ports.controller1_shift / 2;
                data
            }
        } else if addr >= 0x8000 {
            self.cartridge.read_prg(addr - 0x8000)
        } else {
            0
        }
    }

    /// Writes a byte for the CPU.
    pub fn write(&mut self, addr: u16, data: u8)
        requires
            old(self).wf(),
        ensures
            final(self).wf(),
            final(self)@ == old(self)@.write(addr, data),
            same_beam(old(self)@.ppu, final(self)@.ppu),
    {
        proof {
            reveal(BusView::write);
        }
        if addr < 0x2000 {
            self.ram[(addr as usize) % 2048] = data;
        } else if addr < 0x4000 {
            self.ppu.cpu_write(0x2000 + addr % 8, data, &mut self.cartridge);
        } else if addr == 0x4014 {
            self.ports.dma_request = true;
            self.ports.dma_page = data;
        } else if addr == 0x4016 {
            let strobe: bool = data % 2 == 1;
            if strobe || self.ports.controller_strobe {
                self.ports.controller1_shift = self.ports.controller1;
            }
            self.ports.controller_strobe = strobe;
        } else if addr >= 0x8000 {
            self.cartridge.write_prg(addr - 0x8000, data);
        }
        assert(self@ =~= old(self)@.write(addr, data));
    }
}


/// The 2 KiB of RAM appear four times below `$2000`: a byte written at one
/// address is read at each of its mirrors, and the read changes nothing.
pub proof fn lemma_ram_mirrors(b: BusView, addr: u16, data: u8, k: u16)
    requires
        b.wf(),
        addr < 0x2000,
        k < 4,
    ensures
        b.write(addr, data).read((addr % 0x0800 + k * 0x0800) as u16) == (data, b.write(addr, data)),
{
    reveal(BusView::read);
    reveal(BusView::write);
}

/// The eight PPU registers appear every eight bytes from `$2000` up to
/// `$3FFF`.
pub proof fn lemma_register_mirrors(b: BusView, addr: u16, data: u8)
    requires
        0x2000 <= addr < 0x4000,
    ensures
        b.read(addr) == b.read((0x2000 + addr % 8) as u16),
        b.write(addr, data) == b.write((0x2000 + addr % 8) as u16, data),
{
    reveal(BusView::read);
    reveal(BusView::write);
}

} // verus!
