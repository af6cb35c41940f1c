//! A cursor into a trace, as the decisions of its operations see it.
use vstd::prelude::*;

use crate::error::Error;
use crate::replay::sys::{
    architecture_of, flags_code, is_flags_code, ProcessorArchitecture, RegisterContext,
    ReplayFlags,
};
use crate::replay::engine::ReplayEngine;
use crate::replay::{replay_result_of, RawReplayResult, ReplayPosition, ReplayResult, ThreadInfo};

verus! {

/// What the engine reports of a cursor at its current position.
#[derive(Debug, Clone, Copy)]
pub struct CursorState {
    pub position: ReplayPosition,
    pub previous_position: ReplayPosition,
    pub thread_info: ThreadInfo,
    pub teb_address: u64,
    pub program_counter: u64,
    pub stack_pointer: u64,
    pub frame_pointer: u64,
    /// The native value of the cursor's replay flags, as the engine reports it.
    pub flags: u32,
    /// The registers, read by the getter of the trace's architecture; `None` where the
    /// engine gives no register context for that architecture.
    pub context: Option<RegisterContext>,
}

/// A register context is present exactly when the architecture code names one, and then it
/// is of that architecture.
pub open spec fn context_fits(architecture: u16, context: Option<RegisterContext>) -> bool {
    match architecture_of(architecture) {
        Some(ProcessorArchitecture::X64) => context matches Some(RegisterContext::X64(_)),
        Some(ProcessorArchitecture::X86) => context matches Some(RegisterContext::X86(_)),
        None => context is None,
    }
}

/// The direction of a replay.
#[derive(Debug, Clone, Copy, PartialEq, Eq, Structural)]
pub enum ReplayDirection {
    Forward,
    Backward,
}

/// A replay for the engine to run: in `direction` until `until`, or, where that is `None`,
/// until the end of the trace in that direction.
#[derive(Debug, Clone, Copy, PartialEq, Eq, Structural)]
pub struct ReplayRequest {
    pub direction: ReplayDirection,
    pub until: Option<ReplayPosition>,
}

/// Flags set on a cursor are the flags it then reports, and setting them changes nothing else
/// that the cursor reports.
pub proof fn lemma_set_flags_then_get(before: CursorState, after: CursorState, flags: ReplayFlags)
    requires
        after == (CursorState { flags: flags_code(flags), ..before }),
    ensures
        is_flags_code(after.flags),
        forall|g: ReplayFlags| flags_code(g) == after.flags ==> g == flags,
        after.position == before.position,
        after.previous_position == before.previous_position,
        after.thread_info == before.thread_info,
        after.context == before.context,
{
}

/// A move for the engine to make of a cursor: to `to`, or, where that is `None`, to the
/// start of the trace.
#[derive(Debug, Clone, Copy, PartialEq, Eq, Structural)]
pub struct PositionRequest {
    pub to: Option<ReplayPosition>,
}

/// A read of the cursor's current memory for the engine to make: `buffer.len()` bytes from
/// `address`, into `buffer`.
#[derive(Debug)]
pub struct MemoryQuery {
    pub address: u64,
    pub buffer: Vec<u8>,
}

/// A cursor of an engine: its indices in the engine, and what the engine reports of it at its
/// current position. It cannot outlive its engine.
pub struct ReplayCursor<'a> {
    index: i32,
    engine_index: i32,
    engine: &'a ReplayEngine,
    state: CursorState,
}

impl<'a> ReplayCursor<'a> {
    #[verifier::type_invariant]
    spec fn context_matches_architecture(&self) -> bool {
        context_fits(self.engine.trace().system_info.processor_architecture, self.state.context)
    }

    pub closed spec fn spec_index(&self) -> i32 {
        self.index
    }

    pub closed spec fn spec_engine_index(&self) -> i32 {
        self.engine_index
    }

    /// The engine the cursor belongs to.
    pub closed spec fn engine(&self) -> &'a ReplayEngine {
        self.engine
    }

    /// The processor architecture code of the cursor's trace.
    pub open spec fn spec_architecture(&self) -> u16 {
        self.engine().trace().system_info.processor_architecture
    }

    pub closed spec fn state(&self) -> CursorState {
        self.state
    }

    pub(crate) fn new(index: i32, engine_index: i32, engine: &'a ReplayEngine, state: CursorState) -> (c: ReplayCursor<'a>)
        requires
            context_fits(engine.trace().system_info.processor_architecture, state.context),
        ensures
            c.spec_index() == index,
            c.spec_engine_index() == engine_index,
            c.engine() == engine,
            c.state() == state,
    {
        ReplayCursor { index, engine_index, engine, state }
    }

    /// The cursor's index in the engine.
    pub fn index(&self) -> (i: i32)
        ensures
            i == self.spec_index(),
    {
        self.index
    }

    /// The index of the cursor's engine.
    pub fn engine_index(&self) -> (i: i32)
        ensures
            i == self.spec_engine_index(),
    {
        self.engine_index
    }

    /// Takes what the engine reports after it moved the cursor.
    pub fn observe(&mut self, state: CursorState)
        requires
            context_fits(old(self).spec_architecture(), state.context),
        ensures
            final(self).state() == state,
            final(self).spec_index() == old(self).spec_index(),
            final(self).spec_engine_index() == old(self).spec_engine_index(),
            final(self).engine() == old(self).engine(),
    {
        self.state = state;
    }

    /// The replay forward until `until`, or to the end of the trace.
    pub fn replay_forward(&self, until: Option<ReplayPosition>) -> (r: ReplayRequest)
        ensures
            r == (ReplayRequest { direction: ReplayDirection::Forward, until }),
    {
        ReplayRequest { direction: ReplayDirection::Forward, until }
    }

    /// The replay backward until `until`, or to the start of the trace.
    pub fn replay_backward(&self, until: Option<ReplayPosition>) -> (r: ReplayRequest)
        ensures
            r == (ReplayRequest { direction: ReplayDirection::Backward, until }),
    {
        ReplayRequest { direction: ReplayDirection::Backward, until }
    }

    /// The replay forward until the position `steps` steps after the current one.
    pub fn replay_forward_steps(&self, steps: u64) -> (r: ReplayRequest)
        requires
            self.state().position.steps + steps <= u64::MAX,
        ensures
            r.direction == ReplayDirection::Forward,
            r.until == Some(ReplayPosition {
                sequence: self.state().position.sequence,
                steps: (self.state().position.steps + steps) as u64,
            }),
    {
        let until = self.state.position.add_steps(steps);
        ReplayRequest { direction: ReplayDirection::Forward, until: Some(until) }
    }

    /// The replay backward until the position `steps` steps after the current one, the
    /// bound that the backward step replay is given.
    pub fn replay_backward_steps(&self, steps: u64) -> (r: ReplayRequest)
        requires
            self.state().position.steps + steps <= u64::MAX,
        ensures
            r.direction == ReplayDirection::Backward,
            r.until == Some(ReplayPosition {
                sequence: self.state().position.sequence,
                steps: (self.state().position.steps + steps) as u64,
            }),
    {
        let until = self.state.position.add_steps(steps);
        ReplayRequest { direction: ReplayDirection::Backward, until: Some(until) }
    }

    /// Takes a replay's outcome and what the engine reports of the cursor after it, and
    /// gives the outcome.
    pub fn finish_replay(&mut self, raw: RawReplayResult, state: CursorState) -> (r: ReplayResult)
        requires
            context_fits(old(self).spec_architecture(), state.context),
        ensures
            r == replay_result_of(raw),
            final(self).state() == state,
            final(self).spec_index() == old(self).spec_index(),
            final(self).spec_engine_index() == old(self).spec_engine_index(),
            final(self).engine() == old(self).engine(),
    {
        self.state = state;
        ReplayResult::from(raw)
    }

    pub fn get_position(&self) -> (res: Result<ReplayPosition, Error>)
        ensures
            res == Ok::<ReplayPosition, Error>(self.state().position),
    {
        Ok(self.state.position)
    }

    pub fn get_previous_position(&self) -> (res: Result<ReplayPosition, Error>)
        ensures
            res == Ok::<ReplayPosition, Error>(self.state().previous_position),
    {
        Ok(self.state.previous_position)
    }

    pub fn get_thread_info(&self) -> (res: Result<ThreadInfo, Error>)
        ensures
            res == Ok::<ThreadInfo, Error>(self.state().thread_info),
    {
        Ok(self.state.thread_info)
    }

    pub fn get_teb_address(&self) -> (res: Result<u64, Error>)
        ensures
            res == Ok::<u64, Error>(self.state().teb_address),
    {
        Ok(self.state.teb_address)
    }

    pub fn get_program_counter(&self) -> (res: Result<u64, Error>)
        ensures
            res == Ok::<u64, Error>(self.state().program_counter),
    {
        Ok(self.state.program_counter)
    }

    pub fn get_stack_pointer(&self) -> (res: Result<u64, Error>)
        ensures
            res == Ok::<u64, Error>(self.state().stack_pointer),
    {
        Ok(self.state.stack_pointer)
    }

    pub fn get_frame_pointer(&self) -> (res: Result<u64, Error>)
        ensures
            res == Ok::<u64, Error>(self.state().frame_pointer),
    {
        Ok(self.state.frame_pointer)
    }

    /// The registers of the current thread; a conversion error where the trace's
    /// architecture is neither x64 nor x86.
    pub fn get_thread_context(&self) -> (res: Result<RegisterContext, Error>)
        ensures
            architecture_of(self.spec_architecture()) is None ==> (res matches Err(e) && e is ConversionError),
            architecture_of(self.spec_architecture()) is Some ==> res == Ok::<RegisterContext, Error>(self.state().context.unwrap()),
            architecture_of(self.spec_architecture()) == Some(ProcessorArchitecture::X64) ==> res matches Ok(RegisterContext::X64(_)),
            architecture_of(self.spec_architecture()) == Some(ProcessorArchitecture::X86) ==> res matches Ok(RegisterContext::X86(_)),
    {
        proof { use_type_invariant(self); }
        let _arch = self.engine.processor_architecture()?;
        match self.state.context {
            Some(ctx) => Ok(ctx),
            None => Err(Error::ConversionError),
        }
    }

    /// The width in bytes of a pointer of the traced process: 8 on x64, 4 on x86, a
    /// conversion error on any other architecture.
    pub fn pointer_size(&self) -> (res: Result<usize, Error>)
        ensures
            architecture_of(self.spec_architecture()) == Some(ProcessorArchitecture::X64) ==> res == Ok::<usize, Error>(8),
            architecture_of(self.spec_architecture()) == Some(ProcessorArchitecture::X86) ==> res == Ok::<usize, Error>(4),
            architecture_of(self.spec_architecture()) is None ==> (res matches Err(e) && e is ConversionError),
    {
        let ctx = self.get_thread_context()?;
        Ok(ctx.pointer_size())
    }

    /// The move that sets the cursor to `pos`.
    pub fn set_position(&self, pos: &ReplayPosition) -> (r: PositionRequest)
        ensures
            r == (PositionRequest { to: Some(*pos) }),
    {
        PositionRequest { to: Some(*pos) }
    }

    /// The read of `size` bytes of the cursor's current memory at `address`, into a zeroed
    /// buffer of that length.
    pub fn memory_query(&self, address: u64, size: usize) -> (q: MemoryQuery)
        ensures
            q.address == address,
            q.buffer@ == Seq::new(size as nat, |i: int| 0u8),
    {
        let mut buffer: Vec<u8> = Vec::new();
        let mut i: usize = 0;
        while i < size
            invariant
                i <= size,
                buffer@ == Seq::new(i as nat, |k: int| 0u8),
            decreases size - i,
        {
            buffer.push(0u8);
            assert(buffer@ =~= Seq::new((i + 1) as nat, |k: int| 0u8));
            i = i + 1;
        }
        MemoryQuery { address, buffer }
    }

    /// A memory read's outcome: the bytes the engine wrote into the query's buffer where it
    /// reports success (status 0), a foreign function error otherwise. Reading moves nothing:
    /// the cursor is only borrowed.
    pub fn read_current_memory(&self, query: MemoryQuery, status: u32) -> (res: Result<Vec<u8>, Error>)
        ensures
            status == 0 ==> (res matches Ok(b) && b@ == query.buffer@),
            status != 0 ==> (res matches Err(e) && e is ForeignFunctionError),
    {
        if status == 0 {
            Ok(query.buffer)
        } else {
            Err(Error::ForeignFunctionError)
        }
    }

    /// The native value of the cursor's replay flags.
    pub fn get_replay_flags_code(&self) -> (code: u32)
        ensures
            code == self.state().flags,
    {
        self.state.flags
    }

    /// The cursor's replay flags; the engine's value must name a flag.
    pub fn get_replay_flags(&self) -> (res: Result<ReplayFlags, Error>)
        requires
            is_flags_code(self.state().flags),
        ensures
            res matches Ok(f) && flags_code(f) == self.state().flags,
    {
        Ok(ReplayFlags::from_u32(self.state.flags))
    }

    /// Records the flags and gives their native value, to hand to the engine.
    pub fn set_replay_flags(&mut self, flags: ReplayFlags) -> (code: u32)
        ensures
            code == flags_code(flags),
            final(self).state() == (CursorState { flags: flags_code(flags), ..old(self).state() }),
            final(self).spec_index() == old(self).spec_index(),
            final(self).spec_engine_index() == old(self).spec_engine_index(),
            final(self).engine() == old(self).engine(),
    {
        proof { use_type_invariant(&*self); }
        let code = u32::from(flags);
        self.state.flags = code;
        code
    }
}

} // verus!
