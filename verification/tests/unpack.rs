use ttd::replay::{ReplayEngine, ReplayPosition, ReplayPositionRange, SystemInfo, TraceData};
use ttd::replay::EventType;
use ttd::unpack::{
    export_address, find_export, is_executable_writable, is_last_dumped, stack_argument_addresses, u32_from_le_bytes,
    unpack_step, UnpackAction, UnpackEvent, UnpackState,
};

fn engine() -> ReplayEngine {
    let p = ReplayPosition { sequence: 0, steps: 0 };
    ReplayEngine::new(
        0,
        4,
        TraceData {
            lifetime: ReplayPositionRange { min: p, max: p },
            system_info: SystemInfo { major_version: 0, minor_version: 0, process_id: 0, processor_architecture: 0, system_name: [0; 64], user_name: [0; 64] },
            modules: Vec::new(),
            threads: Vec::new(),
            module_loaded_events: Vec::new(),
            module_unloaded_events: Vec::new(),
            exception_events: Vec::new(),
        },
    )
    .unwrap()
}

#[test]
fn export_offset_is_fixed() {
    let e = engine();
    assert_eq!(find_export(&e, "kernelbase", "VirtualProtect").unwrap(), 0x0104290);
    assert_eq!(export_address(0x7700_0000, 0x0104290), 0x7710_4290);
}

#[test]
fn stack_arguments_follow_the_return_address() {
    assert_eq!(stack_argument_addresses(0x19ff00), (0x19ff04, 0x19ff08, 0x19ff0c, 0x19ff10));
}

#[test]
fn arguments_read_little_endian() {
    assert_eq!(u32_from_le_bytes(&vec![0x40, 0x00, 0x00, 0x00]), 0x40);
    assert_eq!(u32_from_le_bytes(&vec![0x78, 0x56, 0x34, 0x12]), 0x1234_5678);
    assert_eq!(u32_from_le_bytes(&vec![0xff, 0xff, 0xff, 0xff]), u32::MAX);
}

#[test]
fn only_rwx_protection_marks_a_payload() {
    assert!(is_executable_writable(0x40));
    assert!(!is_executable_writable(0x20));
    assert!(!is_executable_writable(0x04));
}

#[test]
fn the_walk_follows_the_protection_call_to_its_payload() {
    let start = UnpackState::Watching { watchpoint: 0x7710_4290 };
    let (s, a) = unpack_step(start, UnpackEvent::Stopped(EventType::MemoryWatchpoint));
    assert_eq!((s, a), (start, UnpackAction::ReadArguments));
    let (s, a) = unpack_step(s, UnpackEvent::Arguments(0x0050_0000, 0x200, 0x04, 0x0019_ff00));
    assert_eq!((s, a), (start, UnpackAction::ReplayForward));
    let (s, a) = unpack_step(s, UnpackEvent::Arguments(0x0050_0000, 0x200, 0x40, 0x0019_ff00));
    assert_eq!(s, UnpackState::AwaitingPayload { watchpoint: 0x0050_0000, size: 0x200 });
    assert_eq!(a, UnpackAction::MoveWatchpoint { from: 0x7710_4290, to: 0x0050_0000 });
    let (s, a) = unpack_step(s, UnpackEvent::Stopped(EventType::MemoryWatchpoint));
    assert_eq!((s, a), (UnpackState::Done, UnpackAction::DumpPayload { size: 0x200 }));
    assert_eq!(unpack_step(s, UnpackEvent::Stopped(EventType::Process)), (UnpackState::Done, UnpackAction::Finish));
}

#[test]
fn the_walk_ends_when_the_trace_does() {
    let start = UnpackState::Watching { watchpoint: 1 };
    assert_eq!(unpack_step(start, UnpackEvent::Stopped(EventType::Process)), (UnpackState::Done, UnpackAction::Finish));
}

#[test]
fn twenty_one_instructions_are_dumped() {
    assert!(!is_last_dumped(0));
    assert!(!is_last_dumped(19));
    assert!(is_last_dumped(20));
}
