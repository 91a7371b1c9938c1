use vstd::prelude::*;
use crate::io_registers::DMA;
use crate::ppu::PPUMode;

verus! {

/// Who performs a memory access.
#[derive(Clone, Copy, Debug, PartialEq, Eq, Structural)]
pub enum Source {
    /// The emulator itself (DMA engines, debuggers): never blocked.
    Raw,
    /// The CPU: blocked from OAM and VRAM while the picture unit or OAM DMA uses them.
    Cpu,
}

pub open spec fn spec_is_accessible(oam_accessible: bool, mode: PPUMode, addr: u16, source: Source) -> bool {
    if source == Source::Raw || addr == DMA || (0xFF80 <= addr < 0xFFFF && source == Source::Cpu) {
        true
    } else if 0xFE00 <= addr <= 0xFE9F {
        oam_accessible && mode != PPUMode::Draw && mode != PPUMode::OamScan
    } else if 0x8000 <= addr < 0xA000 {
        mode != PPUMode::Draw
    } else {
        true
    }
}

/// Whether an access to `addr` goes through, given whether OAM DMA leaves OAM free
/// and the picture unit's mode.
pub fn is_accessible(oam_accessible: bool, mode: PPUMode, addr: u16, source: Source) -> (r: bool)
    ensures
        r == spec_is_accessible(oam_accessible, mode, addr, source),
{
    match (oam_accessible, mode, addr, source) {
        (_, _, _, Source::Raw) => true,
        (_, _, DMA, _) => true,
        (_, _, 0xFF80..=0xFFFE, Source::Cpu) => true,
        (false, _, 0xFE00..=0xFE9F, Source::Cpu) => false,
        (_, PPUMode::Draw, 0xFE00..=0xFE9F, Source::Cpu) => false,
        (_, PPUMode::OamScan, 0xFE00..=0xFE9F, Source::Cpu) => false,
        (_, PPUMode::Draw, 0x8000..=0x9FFF, Source::Cpu) => false,
        (_, _, _, _) => true,
    }
}

/// The device that answers an address of the 16-bit bus, with the offset into it.
#[derive(Clone, Copy, Debug, PartialEq, Eq, Structural)]
pub enum Region {
    /// The boot ROM, laid over the cartridge while the machine boots.
    BootRom(u16),
    /// Cartridge ROM and bank registers (0x0000-0x7FFF).
    CartridgeRom(u16),
    /// Video RAM, in the selected bank.
    VRam(u16),
    /// Cartridge RAM (0xA000-0xBFFF).
    CartridgeRam(u16),
    /// The fixed work RAM bank.
    WorkRamLow(u16),
    /// The switchable work RAM bank.
    WorkRamHigh(u16),
    /// Object attribute memory.
    Oam(u16),
    /// 0xFEA0-0xFEFF: reads 0xFF, writes are dropped.
    Unusable,
    /// The I/O registers, by address.
    Io(u16),
    /// High RAM.
    HRam(u16),
    /// The interrupt enable register (0xFFFF).
    InterruptEnable,
}

/// The region of `addr` outside the boot ROM overlay; 0xE000-0xFDFF echoes work RAM.
pub open spec fn spec_region(addr: u16) -> Region {
    if addr < 0x8000 {
        Region::CartridgeRom(addr)
    } else if addr < 0xA000 {
        Region::VRam((addr - 0x8000) as u16)
    } else if addr < 0xC000 {
        Region::CartridgeRam(addr)
    } else if addr < 0xD000 {
        Region::WorkRamLow((addr - 0xC000) as u16)
    } else if addr < 0xE000 {
        Region::WorkRamHigh((addr - 0xD000) as u16)
    } else if addr < 0xF000 {
        Region::WorkRamLow((addr - 0xE000) as u16)
    } else if addr < 0xFE00 {
        Region::WorkRamHigh((addr - 0xF000) as u16)
    } else if addr < 0xFEA0 {
        Region::Oam((addr - 0xFE00) as u16)
    } else if addr < 0xFF00 {
        Region::Unusable
    } else if addr < 0xFF80 {
        Region::Io(addr)
    } else if addr < 0xFFFF {
        Region::HRam((addr - 0xFF80) as u16)
    } else {
        Region::InterruptEnable
    }
}

/// The boot ROM covers 0x0000-0x00FF while booting, and on the Color model also
/// 0x0200-0x08FF.
pub open spec fn in_boot_rom(addr: u16, booting: bool, cgb: bool) -> bool {
    booting && (addr < 0x100 || (cgb && 0x200 <= addr < 0x900))
}

pub open spec fn spec_read_region(addr: u16, booting: bool, cgb: bool) -> Region {
    if in_boot_rom(addr, booting, cgb) {
        Region::BootRom(addr)
    } else {
        spec_region(addr)
    }
}

/// The device a read of `addr` reaches. `booting` lays the boot ROM over the
/// cartridge; `cgb` selects the Color model's larger boot ROM. Writes reach
/// `spec_region(addr)` whatever the boot state.
pub fn read_region(addr: u16, booting: bool, cgb: bool) -> (r: Region)
    ensures
        r == spec_read_region(addr, booting, cgb),
{
    if booting && (addr < 0x100 || (cgb && 0x200 <= addr && addr < 0x900)) {
        return Region::BootRom(addr);
    }
    write_region(addr)
}

/// The device a write of `addr` reaches.
pub fn write_region(addr: u16) -> (r: Region)
    ensures
        r == spec_region(addr),
    decreases addr,
{
    match addr {
        0x0000..=0x7FFF => Region::CartridgeRom(addr),
        0x8000..=0x9FFF => Region::VRam(addr - 0x8000),
        0xA000..=0xBFFF => Region::CartridgeRam(addr),
        0xC000..=0xCFFF => Region::WorkRamLow(addr - 0xC000),
        0xD000..=0xDFFF => Region::WorkRamHigh(addr - 0xD000),
        0xE000..=0xFDFF => write_region(addr - 0xE000 + 0xC000),
        0xFE00..=0xFE9F => Region::Oam(addr - 0xFE00),
        0xFEA0..=0xFEFF => Region::Unusable,
        0xFF00..=0xFF7F => Region::Io(addr),
        0xFF80..=0xFFFE => Region::HRam(addr - 0xFF80),
        0xFFFF => Region::InterruptEnable,
    }
}

/// Echo RAM: 0xE000-0xFDFF reaches the work RAM 0x2000 below it, for reads and
/// writes alike; and every offset lies inside its device.
pub proof fn lemma_echo_ram(addr: u16)
    ensures
        0xE000 <= addr < 0xFE00 ==> spec_region(addr) == spec_region((addr - 0x2000) as u16),
        spec_region(addr) matches Region::VRam(o) ==> o < 0x2000,
        spec_region(addr) matches Region::WorkRamLow(o) ==> o < 0x1000,
        spec_region(addr) matches Region::WorkRamHigh(o) ==> o < 0x1000,
        spec_region(addr) matches Region::Oam(o) ==> o < 0xA0,
        spec_region(addr) matches Region::HRam(o) ==> o < 0x7F,
{
}

/// Work RAM, cartridge space and high RAM are always open to the CPU; OAM is closed
/// while an OAM DMA runs, and VRAM while a line is drawn.
pub proof fn lemma_cpu_blocking(oam_accessible: bool, mode: PPUMode, addr: u16)
    ensures
        (addr < 0x8000 || (0xA000 <= addr < 0xFE00) || (0xFF80 <= addr < 0xFFFF)) ==> spec_is_accessible(
            oam_accessible,
            mode,
            addr,
            Source::Cpu,
        ),
        (0xFE00 <= addr <= 0xFE9F && !oam_accessible) ==> !spec_is_accessible(oam_accessible, mode, addr, Source::Cpu),
        (0x8000 <= addr < 0xA000 && mode == PPUMode::Draw) ==> !spec_is_accessible(oam_accessible, mode, addr, Source::Cpu),
        spec_is_accessible(oam_accessible, mode, addr, Source::Raw),
{
}

} // verus!
