//! The replay side of a trace: positions, modules, threads, events, the engine and its cursors.
use vstd::prelude::*;
use vstd::std_specs::convert::FromSpecImpl;
use vstd::string::*;

use crate::error::Error;
use crate::text::{string_from_utf16, utf16_decode};

pub mod events;
pub mod sys;
pub mod cursor;
pub mod engine;

pub use crate::replay::cursor::{
    CursorState, MemoryQuery, PositionRequest, ReplayCursor, ReplayDirection, ReplayRequest,
};
pub use crate::replay::engine::{ReplayEngine, TraceData};
pub use crate::replay::sys::{
    Amd64Context, ProcessorArchitecture, RegisterContext, ReplayFlags, X86Context,
};

verus! {

/// The sequence number of a position in a trace.
pub type SequenceId = u64;

/// A position in a trace: a sequence number and a count of steps into it.
#[derive(Debug, Clone, Copy, PartialEq, Eq, Structural)]
pub struct ReplayPosition {
    pub sequence: SequenceId,
    pub steps: u64,
}

/// The first and the last position of a trace.
#[derive(Debug, Clone, Copy, PartialEq, Eq, Structural)]
pub struct ReplayPositionRange {
    pub min: ReplayPosition,
    pub max: ReplayPosition,
}

impl ReplayPosition {
    /// The position `steps` steps further into the same sequence.
    pub fn add_steps(self, steps: u64) -> (p: ReplayPosition)
        requires
            self.steps + steps <= u64::MAX,
        ensures
            p.sequence == self.sequence,
            p.steps == self.steps + steps,
    {
        ReplayPosition { sequence: self.sequence, steps: self.steps + steps }
    }
}

/// A thread of the traced process.
#[derive(Debug, Clone, Copy, PartialEq, Eq, Structural)]
pub struct ThreadInfo {
    pub unique_id: u64,
    pub thread_id: u32,
}

/// What the trace records of the system it was taken on.
#[derive(Debug, Clone, Copy, PartialEq, Eq)]
pub struct SystemInfo {
    pub major_version: u32,
    pub minor_version: u32,
    pub process_id: u32,
    /// The processor architecture code of the traced process.
    pub processor_architecture: u16,
    /// The name of the system, in UTF-16 code units, zero-padded.
    pub system_name: [u16; 64],
    /// The name of the user, in UTF-16 code units, zero-padded.
    pub user_name: [u16; 64],
}

/// Why a replay stopped.
#[derive(Debug, Clone, Copy, PartialEq, Eq, Structural)]
pub enum EventType {
    MemoryWatchpoint,
    PositionWatchpoint,
    Exception,
    Gap,
    Thread,
    StepCount,
    Position,
    Process,
    Interrupted,
    Error,
    Count,
    Invalid,
}

/// The event type that an engine code names: the engine numbers its event types from 0
/// in the order above, up to `Count`; every other code is `Invalid`.
pub open spec fn event_type_of(code: u8) -> EventType {
    if code == 0 {
        EventType::MemoryWatchpoint
    } else if code == 1 {
        EventType::PositionWatchpoint
    } else if code == 2 {
        EventType::Exception
    } else if code == 3 {
        EventType::Gap
    } else if code == 4 {
        EventType::Thread
    } else if code == 5 {
        EventType::StepCount
    } else if code == 6 {
        EventType::Position
    } else if code == 7 {
        EventType::Process
    } else if code == 8 {
        EventType::Interrupted
    } else if code == 9 {
        EventType::Error
    } else if code == 10 {
        EventType::Count
    } else {
        EventType::Invalid
    }
}

/// The text of an event type: its name.
pub open spec fn event_type_name(t: EventType) -> Seq<char> {
    match t {
        EventType::MemoryWatchpoint => "MemoryWatchpoint"@,
        EventType::PositionWatchpoint => "PositionWatchpoint"@,
        EventType::Exception => "Exception"@,
        EventType::Gap => "Gap"@,
        EventType::Thread => "Thread"@,
        EventType::StepCount => "StepCount"@,
        EventType::Position => "Position"@,
        EventType::Process => "Process"@,
        EventType::Interrupted => "Interrupted"@,
        EventType::Error => "Error"@,
        EventType::Count => "Count"@,
        EventType::Invalid => "Invalid"@,
    }
}

impl EventType {
    /// The event type's name.
    pub fn to_string(&self) -> (s: String)
        ensures
            s@ == event_type_name(*self),
    {
        match self {
            EventType::MemoryWatchpoint => String::from_str("MemoryWatchpoint"),
            EventType::PositionWatchpoint => String::from_str("PositionWatchpoint"),
            EventType::Exception => String::from_str("Exception"),
            EventType::Gap => String::from_str("Gap"),
            EventType::Thread => String::from_str("Thread"),
            EventType::StepCount => String::from_str("StepCount"),
            EventType::Position => String::from_str("Position"),
            EventType::Process => String::from_str("Process"),
            EventType::Interrupted => String::from_str("Interrupted"),
            EventType::Error => String::from_str("Error"),
            EventType::Count => String::from_str("Count"),
            EventType::Invalid => String::from_str("Invalid"),
        }
    }
}

impl From<u8> for EventType {
    fn from(value: u8) -> (t: EventType) {
        match value {
            0 => EventType::MemoryWatchpoint,
            1 => EventType::PositionWatchpoint,
            2 => EventType::Exception,
            3 => EventType::Gap,
            4 => EventType::Thread,
            5 => EventType::StepCount,
            6 => EventType::Position,
            7 => EventType::Process,
            8 => EventType::Interrupted,
            9 => EventType::Error,
            10 => EventType::Count,
            _ => EventType::Invalid,
        }
    }
}

impl FromSpecImpl<u8> for EventType {
    open spec fn obeys_from_spec() -> bool {
        true
    }

    open spec fn from_spec(v: u8) -> EventType {
        event_type_of(v)
    }
}

/// A replay's outcome as the engine reports it.
#[derive(Debug, Clone, Copy, PartialEq, Eq, Structural)]
pub struct RawReplayResult {
    pub stop_reason: u8,
    pub steps_executed: u64,
    pub instructions_executed: u64,
}

/// A replay's outcome.
#[derive(Debug, Clone, Copy, PartialEq, Eq, Structural)]
pub struct ReplayResult {
    pub stop_reason: EventType,
    pub steps_executed: u64,
    pub instructions_executed: u64,
}

pub open spec fn replay_result_of(raw: RawReplayResult) -> ReplayResult {
    ReplayResult {
        stop_reason: event_type_of(raw.stop_reason),
        steps_executed: raw.steps_executed,
        instructions_executed: raw.instructions_executed,
    }
}

impl From<RawReplayResult> for ReplayResult {
    fn from(value: RawReplayResult) -> (r: ReplayResult) {
        ReplayResult {
            stop_reason: EventType::from(value.stop_reason),
            steps_executed: value.steps_executed,
            instructions_executed: value.instructions_executed,
        }
    }
}

impl FromSpecImpl<RawReplayResult> for ReplayResult {
    open spec fn obeys_from_spec() -> bool {
        true
    }

    open spec fn from_spec(v: RawReplayResult) -> ReplayResult {
        replay_result_of(v)
    }
}

/// A module of the trace as the engine reports it: its name in UTF-16 code units.
#[derive(Debug, Clone)]
pub struct RawModule {
    pub name: Vec<u16>,
    pub address: u64,
    pub size: u64,
    pub checksum: u32,
    pub timestamp: u32,
}

/// A module of the trace.
#[derive(Debug, Clone)]
pub struct ReplayModule {
    pub name: String,
    pub address: u64,
    pub size: u64,
    pub checksum: u32,
    pub timestamp: u32,
}

/// `m` is `raw` with its name decoded.
pub open spec fn module_decoded(raw: RawModule, m: ReplayModule) -> bool {
    &&& utf16_decode(raw.name@) == Some(m.name@)
    &&& m.address == raw.address
    &&& m.size == raw.size
    &&& m.checksum == raw.checksum
    &&& m.timestamp == raw.timestamp
}

/// A module's name decodes.
pub open spec fn module_name_decodes(raw: RawModule) -> bool {
    utf16_decode(raw.name@) is Some
}

impl ReplayModule {
    /// The module with its name decoded from UTF-16; fails exactly when the name is not
    /// valid UTF-16.
    pub fn from_raw(raw: &RawModule) -> (res: Result<ReplayModule, Error>)
        ensures
            res is Ok <==> module_name_decodes(*raw),
            res matches Ok(m) ==> module_decoded(*raw, m),
            res matches Err(e) ==> e is Utf16Error,
    {
        match string_from_utf16(raw.name.as_slice()) {
            Ok(name) => Ok(ReplayModule {
                name,
                address: raw.address,
                size: raw.size,
                checksum: raw.checksum,
                timestamp: raw.timestamp,
            }),
            Err(e) => Err(Error::Utf16Error(e)),
        }
    }
}

/// A module over the stretch of the trace in which it was loaded.
#[derive(Debug, Clone)]
pub struct ModuleInstance {
    pub module: ReplayModule,
    pub load_time: SequenceId,
    pub unload_time: SequenceId,
}

/// A thread with the positions it is at and last was valid at.
#[derive(Debug, Clone, Copy)]
pub struct ActiveThreadInfo {
    pub thread: ThreadInfo,
    pub current_position: ReplayPosition,
    pub last_valid_position: ReplayPosition,
}


/// The engine's stop-reason codes: 0 is a memory watchpoint, 1 a position watchpoint, 2 an
/// exception, 3 a gap, 4 a thread, 5 a step count, 6 a position, 7 the process, 8 an
/// interruption, 9 an error, 10 the count; every other code is invalid. The codes 0 to 10
/// name distinct event types, none of them invalid, and a replay's outcome carries the type
/// of its code with the step and instruction counts unchanged.
pub proof fn lemma_event_codes(raw: RawReplayResult)
    ensures
        event_type_of(0u8) == EventType::MemoryWatchpoint,
        event_type_of(1u8) == EventType::PositionWatchpoint,
        event_type_of(2u8) == EventType::Exception,
        event_type_of(3u8) == EventType::Gap,
        event_type_of(4u8) == EventType::Thread,
        event_type_of(5u8) == EventType::StepCount,
        event_type_of(6u8) == EventType::Position,
        event_type_of(7u8) == EventType::Process,
        event_type_of(8u8) == EventType::Interrupted,
        event_type_of(9u8) == EventType::Error,
        event_type_of(10u8) == EventType::Count,
        forall|c: u8| c > 10 ==> event_type_of(c) == EventType::Invalid,
        forall|c: u8| c <= 10 ==> event_type_of(c) != EventType::Invalid,
        forall|c: u8, d: u8| c <= 10 && d <= 10 && c != d ==> event_type_of(c) != event_type_of(d),
        raw.stop_reason == 1 ==> replay_result_of(raw).stop_reason == EventType::PositionWatchpoint,
        raw.stop_reason == 7 ==> replay_result_of(raw).stop_reason == EventType::Process,
        replay_result_of(raw).steps_executed == raw.steps_executed,
        replay_result_of(raw).instructions_executed == raw.instructions_executed,
{
}

/// Each event type is named by its own variant name, and distinct event types have distinct
/// names.
pub proof fn lemma_event_type_names()
    ensures
        event_type_name(EventType::MemoryWatchpoint) == "MemoryWatchpoint"@,
        event_type_name(EventType::PositionWatchpoint) == "PositionWatchpoint"@,
        event_type_name(EventType::Exception) == "Exception"@,
        event_type_name(EventType::Gap) == "Gap"@,
        event_type_name(EventType::Thread) == "Thread"@,
        event_type_name(EventType::StepCount) == "StepCount"@,
        event_type_name(EventType::Position) == "Position"@,
        event_type_name(EventType::Process) == "Process"@,
        event_type_name(EventType::Interrupted) == "Interrupted"@,
        event_type_name(EventType::Error) == "Error"@,
        event_type_name(EventType::Count) == "Count"@,
        event_type_name(EventType::Invalid) == "Invalid"@,
        forall|t: EventType, u: EventType| t != u ==> event_type_name(t) != event_type_name(u),
{
    reveal_strlit("MemoryWatchpoint");
    reveal_strlit("PositionWatchpoint");
    reveal_strlit("Exception");
    reveal_strlit("Gap");
    reveal_strlit("Thread");
    reveal_strlit("StepCount");
    reveal_strlit("Position");
    reveal_strlit("Process");
    reveal_strlit("Interrupted");
    reveal_strlit("Error");
    reveal_strlit("Count");
    reveal_strlit("Invalid");
    assert forall|t: EventType, u: EventType| t != u implies event_type_name(t) != event_type_name(u) by {
        let a = event_type_name(t);
        let b = event_type_name(u);
        if a.len() == b.len() {
            assert(a[0] != b[0]);
        }
    }
}

} // verus!
