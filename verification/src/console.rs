//! The console: a cartridge plugged into a processor, a bus and a picture
//! processing unit.

use vstd::prelude::*;
use crate::bus::Bus;
use crate::bus::BusView;
use crate::cpu::Cpu;
use crate::model::CpuError;
use crate::model::CpuView;
use crate::ppu::Ppu;
use crate::ppu::PpuView;

verus! {

/// What a cartridge supplies.
pub struct Game {
    /// The 32 KiB of program memory, mapped at `0x8000`.
    pub program_rom: [u8; 0x8000],
    /// The 8 KiB of pattern data of the picture processing unit.
    pub character_rom: [u8; 0x2000],
}

/// The console. The processor owns the bus, and the bus owns the one
/// picture processing unit, so that every access goes through the same
/// state.
pub struct Console {
    pub cpu: Cpu,
}

impl Console {
    /// The state of a console that has just been switched on with a
    /// cartridge that holds the given program memory and pattern data.
    pub open spec fn power_up(program_rom: Seq<u8>, character_rom: Seq<u8>) -> CpuView {
        CpuView::reset(BusView::power_up(program_rom, PpuView::power_up(character_rom)))
    }

    /// Switch the console on with the cartridge `game` plugged in.
    pub fn new(game: Game) -> (console: Self)
        ensures
            console.cpu@ == Self::power_up(game.program_rom@, game.character_rom@),
    {
        let ppu = Ppu::new(game.character_rom);
        let cpu = Cpu::new(Bus::new(game.program_rom, ppu));
        Self { cpu }
    }

    /// Decode and run `n` instructions, stopping at the first byte that
    /// does not decode.
    pub fn run_steps(&mut self, n: usize) -> (result: Result<(), CpuError>)
        ensures
            final(self).cpu@ == old(self).cpu@.run_steps(n as nat).0,
            result == match old(self).cpu@.run_steps(n as nat).1 {
                Some(error) => Err::<(), CpuError>(error),
                None => Ok::<(), CpuError>(()),
            },
    {
        self.cpu.run_steps(n)
    }

    /// The picture processing unit.
    pub fn ppu(&self) -> (ppu: &Ppu)
        ensures
            ppu@ == self.cpu@.bus.ppu,
    {
        self.cpu.bus.ppu()
    }
}

} // verus!
