use gameboy::cgb::Speed;
use gameboy::debugger::{Breakpoint, DebuggerState, Event};
use gameboy::ppu::PPUMode;

type Bp = Breakpoint<u32>;
type Ev = Event<u32>;

#[test]
fn address_breakpoints() {
    let b: Bp = Breakpoint::Addr(0x150);
    assert!(b.break_on(&Event::UpdatePC(0x150)));
    assert!(!b.break_on(&Event::UpdatePC(0x151)));
    assert!(!b.break_on(&Event::ReadMem(0x150)));
    let r: Bp = Breakpoint::ReadMem(0xFF44);
    assert!(r.break_on(&Event::ReadMem(0xFF44)));
    assert!(!r.break_on(&Event::WriteMem(0xFF44, 0)));
    let w: Bp = Breakpoint::WriteMem(0xFF40);
    assert!(w.break_on(&Event::WriteMem(0xFF40, 0x91)));
    assert!(!w.break_on(&Event::WriteMem(0xFF41, 0x91)));
    assert!(!w.break_on(&Event::ReadMem(0xFF40)));
}

#[test]
fn mode_and_speed_breakpoints() {
    let m: Bp = Breakpoint::PPUEnterMode(PPUMode::VBlank);
    assert!(m.break_on(&Event::PPUEnterMode(PPUMode::VBlank)));
    assert!(!m.break_on(&Event::PPUEnterMode(PPUMode::HBlank)));
    let any: Bp = Breakpoint::PPUModeChange;
    assert!(any.break_on(&Event::PPUEnterMode(PPUMode::Draw)));
    assert!(!any.break_on(&Event::UpdatePC(0)));
    // a speed-switch breakpoint stops on any switch
    let s: Bp = Breakpoint::SpeedSwitch(Speed::Double);
    assert!(s.break_on(&Event::SpeedSwitch(Speed::Normal)));
    assert!(s.break_on(&Event::SpeedSwitch(Speed::Double)));
    assert!(!s.break_on(&Event::Info(String::from("switch"))));
}

#[test]
fn events_are_recorded() {
    let mut d: DebuggerState<u32> = DebuggerState::default();
    assert!(!d.running);
    d.running = true;
    d.emit(Event::UpdatePC(1));
    d.emit(Event::Warn(String::from("odd")));
    d.emit(Event::ExecInstruction(7));
    assert!(d.running);
    assert_eq!(d.events.len(), 3);
    assert!(matches!(d.events[1], Event::Warn(ref s) if s == "odd"));
    assert!(matches!(d.events[2], Event::ExecInstruction(7)));
}

#[test]
fn breakpoint_stops_and_restarts_record() {
    let mut d: DebuggerState<u32> = DebuggerState::default();
    d.running = true;
    d.add_breakpoint(Breakpoint::Addr(0x100));
    d.emit(Event::UpdatePC(0x50));
    d.emit(Event::ReadMem(0x100));
    assert!(d.running);
    assert_eq!(d.events.len(), 2);
    d.emit(Event::UpdatePC(0x100));
    assert!(!d.running);
    assert_eq!(d.events.len(), 1);
    assert!(matches!(d.events[0], Event::UpdatePC(0x100)));
    // stopped stays stopped
    d.emit(Event::UpdatePC(0x101));
    assert!(!d.running);
    assert_eq!(d.events.len(), 2);
}

#[test]
fn instruction_breakpoint_after_a_hit_is_not_reached() {
    let mut d: DebuggerState<u32> = DebuggerState::default();
    d.running = true;
    d.add_breakpoint(Breakpoint::PPUModeChange);
    d.add_breakpoint(Breakpoint::ExecInstruction(3));
    let e: Ev = Event::PPUEnterMode(PPUMode::OamScan);
    d.emit(e);
    assert!(!d.running);
    assert_eq!(d.events.len(), 1);
}

#[test]
fn removing_breakpoints() {
    let mut d: DebuggerState<u32> = DebuggerState::default();
    d.add_breakpoint(Breakpoint::Addr(1));
    d.add_breakpoint(Breakpoint::ReadMem(1));
    d.add_breakpoint(Breakpoint::Addr(1));
    d.add_breakpoint(Breakpoint::ExecInstruction(5));
    d.add_breakpoint(Breakpoint::Addr(2));
    assert_eq!(d.breakpoints.len(), 5);
    d.remove_breakpoint(Breakpoint::Addr(1));
    assert_eq!(d.breakpoints.len(), 3);
    assert!(d.breakpoints[0] == Breakpoint::ReadMem(1));
    assert!(d.breakpoints[1] == Breakpoint::ExecInstruction(5));
    assert!(d.breakpoints[2] == Breakpoint::Addr(2));
    d.remove_breakpoint(Breakpoint::ExecInstruction(6));
    assert_eq!(d.breakpoints.len(), 3);
    d.remove_breakpoint(Breakpoint::ExecInstruction(5));
    assert_eq!(d.breakpoints.len(), 2);
    d.remove_breakpoint(Breakpoint::WriteMem(2));
    assert_eq!(d.breakpoints.len(), 2);
    assert!(Breakpoint::<u32>::SpeedSwitch(Speed::Normal) != Breakpoint::SpeedSwitch(Speed::Double));
    assert!(Breakpoint::<u32>::PPUModeChange == Breakpoint::PPUModeChange);
}
