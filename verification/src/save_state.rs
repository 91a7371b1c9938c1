use vstd::prelude::*;
use std::time::SystemTime;
use crate::cartridge::Cartridge;
use crate::cartridge::cartridge_data::RomBank;

verus! {

/// Where a ROM was loaded from, so that a save state can find it again.
#[derive(Debug)]
pub enum RomSource {
    ExternalUrl(String),
    LocalUrl(String),
}

impl Clone for RomSource {
    fn clone(&self) -> (r: Self)
        ensures
            r == *self,
    {
        match self {
            RomSource::ExternalUrl(s) => RomSource::ExternalUrl(s.clone()),
            RomSource::LocalUrl(s) => RomSource::LocalUrl(s.clone()),
        }
    }
}

/// Why a save state could not be made, stored or restored.
#[derive(Clone, Copy, Debug, PartialEq, Eq, Structural)]
pub enum SaveError {
    Serialization,
    Deserialization,
    InvalidGame,
    NoSource,
    MissingIndex,
    IndexOutOfBounds(usize),
}

/// A stored machine: the serialised machine state, what the save slot shows, and
/// where the game's ROM can be found again.
#[derive(Debug)]
pub struct SaveState {
    pub data: String,
    pub info: SaveStateEntry,
    pub rom_source: Option<RomSource>,
}

/// What a save slot shows: when the state was saved and the game's title.
#[derive(Debug)]
pub struct SaveStateEntry {
    pub date: SystemTime,
    pub game_title: String,
}

#[verifier::external_type_specification]
#[verifier::external_body]
pub struct ExSystemTime(SystemTime);

/// Takes up a cartridge read back from a save state. Save states do not carry the
/// ROM, so the restore is refused (`None`) unless the save was made with the game
/// loaded now (same title); the result is the saved controller, RAM and header
/// information with the loaded game's ROM put back.
pub fn load_save_state(current: &Cartridge, saved: Cartridge) -> (r: Option<Cartridge>)
    ensures
        r is Some <==> saved.2.title@ == current.2.title@,
        r matches Some(c) ==> {
            &&& c.0.rom_banks@ == current.0.rom_banks@
            &&& c.0.ram_banks@ == saved.0.ram_banks@
            &&& c.0.loaded
            &&& c.1 == saved.1
            &&& c.2 == saved.2
        },
{
    let Cartridge(data, _, info) = current;
    if info.title != saved.2.title {
        return None;
    }
    let Cartridge(mut saved_data, mbc, saved_info) = saved;
    let mut rom_banks: Vec<RomBank> = Vec::new();
    let mut i: usize = 0;
    while i < data.rom_banks.len()
        invariant
            i <= data.rom_banks@.len(),
            rom_banks@ == data.rom_banks@.subrange(0, i as int),
        decreases data.rom_banks@.len() - i,
    {
        rom_banks.push(data.rom_banks[i]);
        i += 1;
    }
    assert(rom_banks@ =~= data.rom_banks@);
    saved_data.rom_banks = rom_banks;
    saved_data.loaded = true;
    Some(Cartridge(saved_data, mbc, saved_info))
}

/// Where save states are kept: numbered slots on some storage the platform provides.
pub trait SaveManager {
    fn load_save_state(slot: usize) -> Result<SaveState, SaveError>;

    fn save_save_state(state: SaveState, slot: usize) -> Result<(), SaveError>;

    fn get_save_states() -> Vec<Option<String>>;
}

} // verus!
