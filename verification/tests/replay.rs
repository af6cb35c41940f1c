use ttd::replay::events::{RawExceptionEvent, RawModuleEvent};
use ttd::replay::PositionRequest;
use ttd::replay::{
    Amd64Context, CursorState, EventType, ProcessorArchitecture, RawModule, RawReplayResult,
    RegisterContext, ReplayCursor, ReplayDirection, ReplayEngine, ReplayFlags, ReplayModule,
    ReplayPosition, ReplayPositionRange, ReplayResult, SystemInfo, ThreadInfo, TraceData,
    X86Context,
};
use ttd::Error;

const MAX_ENGINE: i32 = 16;
const MAX_CURSOR: i32 = 64;

fn wide(s: &str) -> Vec<u16> {
    s.encode_utf16().collect()
}

fn name64(s: &str) -> [u16; 64] {
    let mut units = [0u16; 64];
    for (i, u) in s.encode_utf16().enumerate() {
        units[i] = u;
    }
    units
}

fn pos(sequence: u64, steps: u64) -> ReplayPosition {
    ReplayPosition { sequence, steps }
}

fn raw_module(name: &str, address: u64) -> RawModule {
    RawModule { name: wide(name), address, size: 0x1000, checksum: 7, timestamp: 9 }
}

fn empty_trace() -> TraceData {
    TraceData {
        lifetime: ReplayPositionRange { min: pos(0, 0), max: pos(0, 0) },
        system_info: SystemInfo { major_version: 0, minor_version: 0, process_id: 0, processor_architecture: 9, system_name: [0; 64], user_name: [0; 64] },
        modules: Vec::new(),
        threads: Vec::new(),
        module_loaded_events: Vec::new(),
        module_unloaded_events: Vec::new(),
        exception_events: Vec::new(),
    }
}

fn loaded_trace() -> TraceData {
    let names = [
        ("C:\\Windows\\System32\\ntdll.dll", 0x7ffa_0000_0000u64),
        ("C:\\Windows\\System32\\KERNEL32.DLL", 0x7ffa_1000_0000u64),
        ("C:\\Windows\\System32\\KERNELBASE.dll", 0x7ffa_2000_0000u64),
        ("C:\\trace\\test.exe", 0x0040_0000u64),
    ];
    let modules: Vec<RawModule> = names.iter().map(|(n, a)| raw_module(n, *a)).collect();
    let loaded: Vec<RawModuleEvent> = modules
        .iter()
        .enumerate()
        .map(|(i, m)| RawModuleEvent { position: pos(0x10 + i as u64, 0), module: m.clone() })
        .collect();
    let unloaded = vec![RawModuleEvent { position: pos(0x900, 3), module: modules[3].clone() }];
    TraceData {
        lifetime: ReplayPositionRange { min: pos(0x10, 0), max: pos(0x1000, 0) },
        system_info: SystemInfo { major_version: 1, minor_version: 9, process_id: 11968, processor_architecture: 9, system_name: name64("TRACEHOST"), user_name: name64("tester") },
        modules,
        threads: vec![ThreadInfo { unique_id: 1, thread_id: 0x1f00 }, ThreadInfo { unique_id: 2, thread_id: 0x2a04 }],
        module_loaded_events: loaded,
        module_unloaded_events: unloaded,
        exception_events: Vec::new(),
    }
}

fn loaded_engine() -> ReplayEngine {
    let mut engine = ReplayEngine::new(0, MAX_ENGINE, empty_trace()).expect("failed to create a new replayer");
    assert!(engine.complete_load(0, loaded_trace()).is_ok());
    engine
}

fn x64_state(position: ReplayPosition) -> CursorState {
    CursorState {
        position,
        previous_position: position,
        thread_info: ThreadInfo { unique_id: 1, thread_id: 0x1f00 },
        teb_address: 0x7ff7_0000_1000,
        program_counter: 0x7ffa_0000_1234,
        stack_pointer: 0x0000_00e5_ffff_f000,
        frame_pointer: 0x0000_00e5_ffff_f100,
        flags: 0,
        context: Some(RegisterContext::X64(amd64(1))),
    }
}

fn amd64(seed: u64) -> Amd64Context {
    Amd64Context {
        rax: seed, rbx: 0xdead_beef, rcx: u64::MAX, rdx: 0, rsi: 0x10, rdi: 0xabc,
        rip: 0x7ffa_0000_1234, rsp: 0xe5_ffff_f000, rbp: 0xe5_ffff_f100, r8: 8, r9: 9,
        r10: 10, r11: 11, r12: 12, r13: 13, r14: 14, r15: 15,
    }
}

#[test]
fn test_get_module_base_address() {
    let engine = loaded_engine();

    let testcases = ["ntdll.dll", "kernel32.dll", "kernelbase.dll"];

    // valid
    for tc in testcases {
        let res = engine.get_module_base_address(tc);
        assert!(res.is_ok_and(|v| v != 0));
    }

    // invalid
    let res = engine.get_module_base_address("___fooobar__.dll");
    assert!(res.is_err());
    assert!(matches!(res.unwrap_err(), Error::NotFound));
}

#[test]
fn base_address_is_that_of_the_matching_module() {
    let engine = loaded_engine();
    assert_eq!(engine.get_module_base_address("KERNEL32.dll").unwrap(), 0x7ffa_1000_0000);
    assert_eq!(engine.get_module_base_address("test.exe").unwrap(), 0x0040_0000);
}

#[test]
fn base_address_of_an_ambiguous_name_is_a_mismatch() {
    let engine = loaded_engine();
    // three module names end with ".dll", and every name ends with the empty string
    assert!(matches!(engine.get_module_base_address(".dll"), Err(Error::DataMismatch)));
    assert!(matches!(engine.get_module_base_address(""), Err(Error::DataMismatch)));
}

#[test]
fn base_address_with_an_undecodable_name_fails() {
    let mut trace = loaded_trace();
    trace.module_loaded_events[1].module.name = vec![0x6b, 0xd800, 0x6c];
    let mut engine = ReplayEngine::new(0, MAX_ENGINE, empty_trace()).unwrap();
    engine.complete_load(0, trace).unwrap();
    assert!(matches!(engine.get_module_base_address("ntdll.dll"), Err(Error::Utf16Error(_))));
}

#[test]
fn test_get_module_list() {
    let engine = ReplayEngine::new(0, MAX_ENGINE, empty_trace()).expect("failed to create a new replay engine");
    let res = engine.get_module_list();
    assert!(res.is_ok());
    let val = res.unwrap();
    assert!(val.len() == 0);

    let engine = loaded_engine();
    let res = engine.get_module_list();
    assert!(res.is_ok());
    let val = res.unwrap();
    assert!(val.len() > 0);
    assert_eq!(val.len(), engine.get_module_count().unwrap());
    assert_eq!(val[0].name, "C:\\Windows\\System32\\ntdll.dll");
    assert_eq!(val[0].address, 0x7ffa_0000_0000);
    assert_eq!(val[0].size, 0x1000);
}

#[test]
fn test_get_thread_list() {
    let engine = ReplayEngine::new(0, MAX_ENGINE, empty_trace()).expect("failed to create a new replay engine");
    let res = engine.get_thread_list();
    assert!(res.is_ok());
    assert!(res.unwrap().len() == 0);

    let engine = loaded_engine();
    let val = engine.get_thread_list().unwrap();
    assert!(val.len() > 0);
    assert_eq!(val.len(), engine.get_thread_count().unwrap());
    assert_eq!(val[1], ThreadInfo { unique_id: 2, thread_id: 0x2a04 });
}

#[test]
fn test_get_module_loaded_event_list() {
    let engine = ReplayEngine::new(0, MAX_ENGINE, empty_trace()).expect("failed to create a new replay engine");
    assert!(engine.get_module_loaded_event_list().unwrap().len() == 0);

    let engine = loaded_engine();
    let val = engine.get_module_loaded_event_list().unwrap();
    assert!(val.len() > 0);
    assert_eq!(val.len(), engine.get_module_loaded_event_count().unwrap());
    assert_eq!(val[2].position, pos(0x12, 0));
    assert_eq!(val[2].module.name, "C:\\Windows\\System32\\KERNELBASE.dll");
}

#[test]
fn test_get_module_unloaded_event_list() {
    let engine = ReplayEngine::new(0, MAX_ENGINE, empty_trace()).expect("failed to create a new replay engine");
    assert!(engine.get_module_unloaded_event_list().unwrap().len() == 0);

    let engine = loaded_engine();
    let val = engine.get_module_unloaded_event_list().unwrap();
    assert!(val.len() > 0);
    assert_eq!(val.len(), engine.get_module_unloaded_event_count().unwrap());
    assert_eq!(val[0].position, pos(0x900, 3));
    assert_eq!(val[0].module.name, "C:\\trace\\test.exe");
}

#[test]
fn test_get_exception_event_list() {
    let engine = ReplayEngine::new(0, MAX_ENGINE, empty_trace()).expect("failed to create a new replay engine");
    let res = engine.get_exception_event_list();
    assert!(res.is_ok());
    assert!(res.unwrap().len() == 0);

    let engine = loaded_engine();
    assert_eq!(engine.get_exception_event_count().unwrap(), 0);
    assert!(engine.get_exception_event_list().is_ok());
}

#[test]
fn exception_events_are_counted() {
    let mut trace = loaded_trace();
    trace.exception_events.push(RawExceptionEvent { position: pos(0x20, 1) });
    let mut engine = ReplayEngine::new(0, MAX_ENGINE, empty_trace()).unwrap();
    engine.complete_load(0, trace).unwrap();
    assert_eq!(engine.get_exception_event_count().unwrap(), 1);
}

#[test]
fn test_system_info() {
    let engine = loaded_engine();
    let info = engine.system_info().unwrap();
    assert_eq!(info.major_version, 1);
    assert_eq!(info.minor_version, 9);
    assert_eq!(info.process_id, 11968);
    assert_eq!(info.system_name.len(), 64);
    assert_eq!(info.user_name.len(), 64);
    assert_eq!(String::from_utf16(&info.system_name[..9]).unwrap(), "TRACEHOST");
    assert_eq!(String::from_utf16(&info.user_name[..6]).unwrap(), "tester");
    assert_eq!(engine.process_id().unwrap(), 11968);

    let fresh = ReplayEngine::new(0, MAX_ENGINE, empty_trace()).unwrap();
    let info = fresh.system_info().unwrap();
    assert_eq!(info.system_name.len(), 64);
    assert_eq!(info.user_name.len(), 64);
}

#[test]
fn engine_index_outside_its_range_fails() {
    assert!(matches!(ReplayEngine::new(-1, MAX_ENGINE, empty_trace()), Err(Error::InitializationError)));
    assert!(matches!(ReplayEngine::new(MAX_ENGINE + 1, MAX_ENGINE, empty_trace()), Err(Error::InitializationError)));
    assert!(ReplayEngine::new(MAX_ENGINE, MAX_ENGINE, empty_trace()).is_ok());
}

#[test]
fn failed_load_keeps_the_engine() {
    let mut engine = ReplayEngine::new(0, MAX_ENGINE, empty_trace()).unwrap();
    assert!(matches!(engine.complete_load(5, loaded_trace()), Err(Error::InitializationError)));
    assert_eq!(engine.get_module_count().unwrap(), 0);
    assert_eq!(engine.get_lifetime(), ReplayPositionRange { min: pos(0, 0), max: pos(0, 0) });
}

#[test]
fn build_index_status() {
    assert!(ReplayEngine::build_index(0).is_ok());
    assert!(matches!(ReplayEngine::build_index(1), Err(Error::ForeignFunctionError)));
}

#[test]
fn trace_path_units_end_with_zero() {
    let units = ReplayEngine::trace_path_units("C:\\t\u{1F600}.run").unwrap();
    let mut expected: Vec<u16> = "C:\\t\u{1F600}.run".encode_utf16().collect();
    expected.push(0);
    assert_eq!(units, expected);
    assert_eq!(units[4], 0xD83D);
    assert_eq!(units[5], 0xDE00);
    assert!(matches!(ReplayEngine::trace_path_units("a\0b"), Err(Error::Null)));
}

#[test]
fn module_names_decode_from_utf16() {
    let raw = RawModule { name: vec![0x61, 0xD83D, 0xDE00], address: 1, size: 2, checksum: 3, timestamp: 4 };
    let m = ReplayModule::from_raw(&raw).unwrap();
    assert_eq!(m.name, "a\u{1F600}");
    assert_eq!((m.address, m.size, m.checksum, m.timestamp), (1, 2, 3, 4));
    let bad = RawModule { name: vec![0xDE00], address: 1, size: 2, checksum: 3, timestamp: 4 };
    assert!(matches!(ReplayModule::from_raw(&bad), Err(Error::Utf16Error(_))));
}

#[test]
fn event_type_codes() {
    assert_eq!(EventType::from(0u8), EventType::MemoryWatchpoint);
    assert_eq!(EventType::from(6u8), EventType::Position);
    assert_eq!(EventType::from(7u8), EventType::Process);
    assert_eq!(EventType::from(10u8), EventType::Count);
    assert_eq!(EventType::from(11u8), EventType::Invalid);
    assert_eq!(EventType::from(255u8), EventType::Invalid);
}

#[test]
fn replay_result_conversion() {
    let r = ReplayResult::from(RawReplayResult { stop_reason: 7, steps_executed: 3, instructions_executed: 12 });
    assert_eq!(r, ReplayResult { stop_reason: EventType::Process, steps_executed: 3, instructions_executed: 12 });
}

#[test]
fn replay_flags_round_trip() {
    for f in [
        ReplayFlags::NoFlags,
        ReplayFlags::ReplayOnlyCurrentThread,
        ReplayFlags::ReplayAllSegmentsWithoutFiltering,
        ReplayFlags::ReplaySegmentsSequentially,
    ] {
        assert_eq!(ReplayFlags::from_u32(u32::from(f)), f);
    }
    assert_eq!(u32::from(ReplayFlags::ReplaySegmentsSequentially), 4);
    assert_eq!(ReplayFlags::default(), ReplayFlags::NoFlags);
}

#[test]
fn processor_architecture_codes() {
    assert_eq!(ProcessorArchitecture::try_from_u16(9).unwrap(), ProcessorArchitecture::X64);
    assert_eq!(ProcessorArchitecture::try_from_u16(0).unwrap(), ProcessorArchitecture::X86);
    assert!(matches!(ProcessorArchitecture::try_from_u16(12), Err(Error::ConversionError)));
}

#[test]
fn x64_context_text() {
    let c = amd64(0x1234);
    let expected = format!(
        "rax={:016x} rbx={:016x} rcx={:016x}
rdx={:016x} rsi={:016x} rdi={:016x}
rip={:016x} rsp={:016x} rbp={:016x}
 r8={:016x}  r9={:016x} r10={:016x}
r11={:016x} r12={:016x} r13={:016x}
r14={:016x} r15={:016x}",
        c.rax, c.rbx, c.rcx, c.rdx, c.rsi, c.rdi, c.rip, c.rsp, c.rbp, c.r8, c.r9, c.r10,
        c.r11, c.r12, c.r13, c.r14, c.r15
    );
    assert_eq!(RegisterContext::X64(c).to_string(), expected);
    assert!(RegisterContext::X64(c).to_string().starts_with("rax=0000000000001234 rbx=00000000deadbeef rcx=ffffffffffffffff\n"));
}

#[test]
fn x86_context_text() {
    let c = X86Context { eax: 0xa, ebx: 0xffff_ffff, ecx: 3, edx: 4, esi: 5, edi: 6, eip: 0x401000, esp: 0x19ff00, ebp: 0x19ff40 };
    let expected = format!(
        "eax={:08x} ebx={:08x} ecx={:08x} edx={:08x} esi={:08x} edi={:08x}
eip={:08x} esp={:08x} ebp={:08x} ",
        c.eax, c.ebx, c.ecx, c.edx, c.esi, c.edi, c.eip, c.esp, c.ebp,
    );
    assert_eq!(RegisterContext::X86(c).to_string(), expected);
    assert_eq!(
        RegisterContext::X86(c).to_string(),
        "eax=0000000a ebx=ffffffff ecx=00000003 edx=00000004 esi=00000005 edi=00000006\neip=00401000 esp=0019ff00 ebp=0019ff40 "
    );
}

#[test]
fn new_cursor_checks_its_indices() {
    let engine = loaded_engine();
    let start = engine.get_lifetime().min;
    let cursor = engine.cursor(0, 0, MAX_CURSOR, MAX_ENGINE, x64_state(start)).unwrap();
    assert_eq!(cursor.index(), 0);
    assert_eq!(cursor.engine_index(), 0);
    assert_eq!(*&cursor.get_position().unwrap(), engine.get_lifetime().min);
    assert!(matches!(engine.cursor(MAX_CURSOR + 1, 0, MAX_CURSOR, MAX_ENGINE, x64_state(start)), Err(Error::InitializationError)));
    assert!(matches!(engine.cursor(0, -1, MAX_CURSOR, MAX_ENGINE, x64_state(start)), Err(Error::InitializationError)));
}

fn cursor_at(engine: &ReplayEngine, position: ReplayPosition) -> ReplayCursor<'_> {
    engine.cursor(0, 0, MAX_CURSOR, MAX_ENGINE, x64_state(position)).unwrap()
}

#[test]
fn test_replay_forward_steps() {
    let engine = loaded_engine();
    let cursor = cursor_at(&engine, pos(0x20, 5));
    for step in 1..10u64 {
        let req = cursor.replay_forward_steps(step);
        assert_eq!(req.direction, ReplayDirection::Forward);
        assert_eq!(req.until, Some(pos(0x20, 5 + step)));
        let req = cursor.replay_backward_steps(step);
        assert_eq!(req.direction, ReplayDirection::Backward);
        assert_eq!(req.until, Some(pos(0x20, 5 + step)));
    }
    assert_eq!(cursor.replay_forward(None).until, None);

    let mut cursor = cursor_at(&engine, pos(0x20, 5));
    for step in 1..10u64 {
        let req = cursor.replay_forward_steps(step);
        let target = req.until.unwrap();
        let res = cursor.finish_replay(
            RawReplayResult { stop_reason: 6, steps_executed: step, instructions_executed: step },
            x64_state(target),
        );
        assert_eq!(step, res.steps_executed);
        assert_eq!(res.stop_reason, EventType::Position);

        let req = cursor.replay_backward_steps(step);
        let res = cursor.finish_replay(
            RawReplayResult { stop_reason: 6, steps_executed: 0, instructions_executed: 0 },
            x64_state(pos(0x20, 5)),
        );
        assert_eq!(req.direction, ReplayDirection::Backward);
        assert_eq!(res.stop_reason, EventType::Position);
        assert_eq!(0, res.steps_executed);
    }
    assert_eq!(cursor.replay_backward(Some(pos(1, 1))).direction, ReplayDirection::Backward);
}

#[test]
fn finished_replay_moves_the_cursor() {
    let engine = loaded_engine();
    let mut cursor = cursor_at(&engine, engine.get_lifetime().min);
    let res = cursor.finish_replay(
        RawReplayResult { stop_reason: 7, steps_executed: 100, instructions_executed: 250 },
        x64_state(engine.get_lifetime().max),
    );
    assert_eq!(res.stop_reason, EventType::Process);
    assert_ne!(res.instructions_executed, 0);
    assert_eq!(cursor.get_position().unwrap(), engine.get_lifetime().max);
}

#[test]
fn test_get_teb_address() {
    let engine = loaded_engine();
    let cursor = cursor_at(&engine, engine.get_lifetime().min);
    let addr = cursor.get_teb_address().unwrap();
    assert_ne!(addr, 0);
    assert_eq!(cursor.get_program_counter().unwrap(), 0x7ffa_0000_1234);
    assert_eq!(cursor.get_stack_pointer().unwrap(), 0xe5_ffff_f000);
    assert_eq!(cursor.get_frame_pointer().unwrap(), 0xe5_ffff_f100);
    assert_eq!(cursor.get_thread_info().unwrap().thread_id, 0x1f00);
}

#[test]
fn test_get_thread_context() {
    let engine = loaded_engine();
    let cursor = cursor_at(&engine, engine.get_lifetime().min);
    assert_eq!(cursor.get_thread_context().unwrap(), RegisterContext::X64(amd64(1)));
    assert_eq!(cursor.pointer_size().unwrap(), 8);

    let mut trace = loaded_trace();
    trace.system_info.processor_architecture = 0;
    let mut x86_engine = ReplayEngine::new(0, MAX_ENGINE, empty_trace()).unwrap();
    x86_engine.complete_load(0, trace).unwrap();
    let mut state = x64_state(pos(1, 1));
    state.context = Some(RegisterContext::X86(X86Context { eax: 1, ebx: 2, ecx: 3, edx: 4, esi: 5, edi: 6, eip: 7, esp: 8, ebp: 9 }));
    let cursor = x86_engine.cursor(1, 0, MAX_CURSOR, MAX_ENGINE, state).unwrap();
    assert_eq!(cursor.pointer_size().unwrap(), 4);

    let mut trace = loaded_trace();
    trace.system_info.processor_architecture = 12;
    let mut arm_engine = ReplayEngine::new(0, MAX_ENGINE, empty_trace()).unwrap();
    arm_engine.complete_load(0, trace).unwrap();
    assert!(matches!(arm_engine.processor_architecture(), Err(Error::ConversionError)));
    let mut state = x64_state(pos(1, 1));
    state.context = None;
    let cursor = arm_engine.cursor(1, 0, MAX_CURSOR, MAX_ENGINE, state).unwrap();
    assert!(matches!(cursor.get_thread_context(), Err(Error::ConversionError)));
    assert!(matches!(cursor.pointer_size(), Err(Error::ConversionError)));
}

#[test]
fn test_get_set_replay_flags() {
    let engine = loaded_engine();
    let mut cursor = cursor_at(&engine, engine.get_lifetime().min);
    assert_eq!(cursor.get_replay_flags().unwrap(), ReplayFlags::NoFlags);
    assert_eq!(cursor.set_replay_flags(ReplayFlags::ReplayAllSegmentsWithoutFiltering), 2);
    assert_eq!(cursor.get_replay_flags().unwrap(), ReplayFlags::ReplayAllSegmentsWithoutFiltering);
    assert_eq!(cursor.get_replay_flags_code(), 2);
    assert!(ReplayFlags::is_known_code(4));
    assert!(!ReplayFlags::is_known_code(3));
}

#[test]
fn unknown_flags_do_not_stop_a_cursor() {
    let engine = loaded_engine();
    let mut state = x64_state(engine.get_lifetime().min);
    state.flags = 3;
    let mut cursor = engine.cursor(0, 0, MAX_CURSOR, MAX_ENGINE, state).unwrap();
    assert_eq!(cursor.get_replay_flags_code(), 3);
    let req = cursor.replay_forward(None);
    assert_eq!(req.direction, ReplayDirection::Forward);
    let res = cursor.finish_replay(RawReplayResult { stop_reason: 7, steps_executed: 1, instructions_executed: 1 }, state);
    assert_eq!(res.stop_reason, EventType::Process);
    assert_eq!(cursor.get_position().unwrap(), engine.get_lifetime().min);
}

#[test]
fn memory_read_status() {
    let engine = loaded_engine();
    let cursor = cursor_at(&engine, engine.get_lifetime().min);
    let mut query = cursor.memory_query(0x401000, 3);
    assert_eq!(query.address, 0x401000);
    assert_eq!(query.buffer, vec![0, 0, 0]);
    query.buffer.copy_from_slice(&[1, 2, 3]);
    assert_eq!(cursor.read_current_memory(query, 0).unwrap(), vec![1, 2, 3]);
    let query = cursor.memory_query(0x401000, 4);
    assert!(matches!(cursor.read_current_memory(query, 0x8007), Err(Error::ForeignFunctionError)));
    assert_eq!(cursor.get_position().unwrap(), engine.get_lifetime().min);
    assert!(cursor.memory_query(0, 0).buffer.is_empty());
}

#[test]
fn new_cursor_is_set_to_the_start() {
    assert_eq!(ReplayEngine::cursor_setup(0, 0, MAX_CURSOR, MAX_ENGINE).unwrap(), PositionRequest { to: None });
    assert!(matches!(ReplayEngine::cursor_setup(0, MAX_ENGINE + 1, MAX_CURSOR, MAX_ENGINE), Err(Error::InitializationError)));
    let engine = loaded_engine();
    let cursor = cursor_at(&engine, engine.get_lifetime().min);
    assert_eq!(cursor.set_position(&pos(0x30, 2)), PositionRequest { to: Some(pos(0x30, 2)) });
}

#[test]
fn names_of_event_types_and_flags() {
    assert_eq!(EventType::Process.to_string(), "Process");
    assert_eq!(EventType::MemoryWatchpoint.to_string(), "MemoryWatchpoint");
    assert_eq!(EventType::from(200u8).to_string(), "Invalid");
    assert_eq!(ReplayFlags::NoFlags.to_string(), "None");
    assert_eq!(ReplayFlags::ReplayOnlyCurrentThread.to_string(), "ReplayOnlyCurrentThread");
}

#[test]
fn trace_path_reaches_the_engine_whole() {
    for path in ["C:\\Users\\me\\AppData\\Local\\Temp\\test.run", "D:\\traces\\\u{e9}t\u{e9}\u{1F600}.run", ""] {
        let units = ReplayEngine::trace_path_units(path).unwrap();
        assert_eq!(units.last(), Some(&0));
        let body = &units[..units.len() - 1];
        assert!(!body.contains(&0));
        assert_eq!(String::from_utf16(body).unwrap(), path);
    }
}
