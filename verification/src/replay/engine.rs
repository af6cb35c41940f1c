//! A replay engine over a trace: what the engine reports of the trace it holds, and the
//! decisions and conversions of the engine's operations.
use vstd::prelude::*;

use crate::error::Error;
use crate::replay::cursor::{context_fits, CursorState, PositionRequest, ReplayCursor};
use crate::replay::events::{
    Exception, ModuleLoaded, ModuleUnloaded, RawExceptionEvent, RawModuleEvent,
};
use crate::replay::sys::{architecture_of, ProcessorArchitecture};
use crate::replay::{
    module_decoded, module_name_decodes, RawModule, ReplayModule, ReplayPositionRange,
    SystemInfo, ThreadInfo,
};
use crate::text::{
    lemma_utf16_round_trip, chars_of, encode_utf16, ends_with, has_suffix, lowercased, to_lowercase, utf16_decode,
    utf16_encode,
};

verus! {

/// What the engine reports of the trace it holds: its lifetime, the system it was taken on,
/// its modules, threads and events. Before a trace is loaded the lists are empty.
#[derive(Debug, Clone)]
pub struct TraceData {
    pub lifetime: ReplayPositionRange,
    pub system_info: SystemInfo,
    pub modules: Vec<RawModule>,
    pub threads: Vec<ThreadInfo>,
    pub module_loaded_events: Vec<RawModuleEvent>,
    pub module_unloaded_events: Vec<RawModuleEvent>,
    pub exception_events: Vec<RawExceptionEvent>,
}

/// Every module's name decodes.
pub open spec fn module_names_decode(raws: Seq<RawModule>) -> bool {
    forall|i: int| 0 <= i < raws.len() ==> module_name_decodes(#[trigger] raws[i])
}

/// `ms` is `raws` with every name decoded, in the same order.
pub open spec fn modules_decoded(raws: Seq<RawModule>, ms: Seq<ReplayModule>) -> bool {
    &&& ms.len() == raws.len()
    &&& forall|i: int| 0 <= i < raws.len() ==> module_decoded(#[trigger] raws[i], ms[i])
}

/// Every event's module name decodes.
pub open spec fn event_names_decode(raws: Seq<RawModuleEvent>) -> bool {
    forall|i: int| 0 <= i < raws.len() ==> module_name_decodes(#[trigger] raws[i].module)
}

/// `es` is `raws` with every module name decoded, in the same order.
pub open spec fn loaded_events_decoded(raws: Seq<RawModuleEvent>, es: Seq<ModuleLoaded>) -> bool {
    &&& es.len() == raws.len()
    &&& forall|i: int|
        0 <= i < raws.len() ==> (#[trigger] es[i]).position == raws[i].position && module_decoded(
            raws[i].module,
            es[i].module,
        )
}

/// `es` is `raws` with every module name decoded, in the same order.
pub open spec fn unloaded_events_decoded(raws: Seq<RawModuleEvent>, es: Seq<ModuleUnloaded>) -> bool {
    &&& es.len() == raws.len()
    &&& forall|i: int|
        0 <= i < raws.len() ==> (#[trigger] es[i]).position == raws[i].position && module_decoded(
            raws[i].module,
            es[i].module,
        )
}

/// The decoded name of an event's module.
pub open spec fn event_module_name(e: RawModuleEvent) -> Seq<char> {
    utf16_decode(e.module.name@).unwrap()
}

/// An event's module name, lowercased, ends with `query` lowercased.
pub open spec fn event_matches(e: RawModuleEvent, query: Seq<char>) -> bool {
    has_suffix(lowercased(event_module_name(e)), lowercased(query))
}

/// A module event matches a query exactly when the query, lowercased, is the tail of the
/// module's decoded name, lowercased: as long as it or shorter, and equal to the name's last
/// characters one for one. A name that holds the query anywhere but at its end does not
/// match.
pub proof fn lemma_match_is_name_suffix(e: RawModuleEvent, query: Seq<char>)
    ensures
        event_matches(e, query) <==> ({
            let name = lowercased(event_module_name(e));
            let q = lowercased(query);
            &&& q.len() <= name.len()
            &&& forall|i: int| 0 <= i < q.len() ==> name[name.len() - q.len() + i] == q[i]
        }),
{
    let name = lowercased(event_module_name(e));
    let q = lowercased(query);
    if q.len() <= name.len() && forall|i: int| 0 <= i < q.len() ==> name[name.len() - q.len() + i] == q[i] {
        assert(name.skip(name.len() - q.len()) =~= q);
    }
    if event_matches(e, query) {
        assert forall|i: int| 0 <= i < q.len() implies name[name.len() - q.len() + i] == q[i] by {
            assert(name.skip(name.len() - q.len())[i] == q[i]);
        }
    }
}

/// How many events' module names match `query`.
pub open spec fn match_count(events: Seq<RawModuleEvent>, query: Seq<char>) -> nat
    decreases events.len(),
{
    if events.len() == 0 {
        0
    } else {
        match_count(events.drop_last(), query) + if event_matches(events.last(), query) {
            1nat
        } else {
            0nat
        }
    }
}

/// An event that matches counts at least once.
pub proof fn lemma_match_count_one(events: Seq<RawModuleEvent>, query: Seq<char>, j: int)
    requires
        0 <= j < events.len(),
        event_matches(events[j], query),
    ensures
        match_count(events, query) >= 1,
    decreases events.len(),
{
    if j < events.len() - 1 {
        lemma_match_count_one(events.drop_last(), query, j);
    }
}

/// Two events that match count at least twice.
pub proof fn lemma_match_count_two(events: Seq<RawModuleEvent>, query: Seq<char>, j: int, k: int)
    requires
        0 <= j < k < events.len(),
        event_matches(events[j], query),
        event_matches(events[k], query),
    ensures
        match_count(events, query) >= 2,
    decreases events.len(),
{
    if k == events.len() - 1 {
        lemma_match_count_one(events.drop_last(), query, j);
    } else {
        lemma_match_count_two(events.drop_last(), query, j, k);
    }
}

/// The units of a trace path as the engine takes it: UTF-16, with a terminating zero.
pub open spec fn trace_path_units_of(path: Seq<char>) -> Seq<u16> {
    utf16_encode(path).push(0)
}

/// A path without a NUL character reaches the engine whole: its units end with the one
/// zero that terminates them, and the units before it decode to the path.
pub proof fn lemma_trace_path_read_back(path: Seq<char>)
    requires
        !path.contains('\0'),
    ensures
        trace_path_units_of(path).last() == 0,
        !trace_path_units_of(path).drop_last().contains(0u16),
        utf16_decode(trace_path_units_of(path).drop_last()) == Some(path),
{
    lemma_utf16_round_trip(path);
    assert(trace_path_units_of(path).drop_last() == utf16_encode(path));
}

/// Each list that the engine gives has as many entries, in the same order, as the trace
/// holds and as the matching count reports.
pub proof fn lemma_lists_match_counts(
    trace: TraceData,
    modules: Seq<ReplayModule>,
    loaded: Seq<ModuleLoaded>,
    unloaded: Seq<ModuleUnloaded>,
)
    requires
        modules_decoded(trace.modules@, modules),
        loaded_events_decoded(trace.module_loaded_events@, loaded),
        unloaded_events_decoded(trace.module_unloaded_events@, unloaded),
    ensures
        modules.len() == trace.modules@.len(),
        loaded.len() == trace.module_loaded_events@.len(),
        unloaded.len() == trace.module_unloaded_events@.len(),
        forall|i: int| 0 <= i < modules.len() ==> (#[trigger] modules[i]).address == trace.modules@[i].address,
        forall|i: int| 0 <= i < loaded.len() ==> (#[trigger] loaded[i]).position == trace.module_loaded_events@[i].position,
        forall|i: int| 0 <= i < unloaded.len() ==> (#[trigger] unloaded[i]).position == trace.module_unloaded_events@[i].position,
{
    assert forall|i: int| 0 <= i < modules.len() implies (#[trigger] modules[i]).address == trace.modules@[i].address by {
        assert(module_decoded(trace.modules@[i], modules[i]));
    }
}

/// A replay engine: its index and what it reports of the trace it holds.
pub struct ReplayEngine {
    index: i32,
    trace: TraceData,
}

impl ReplayEngine {
    pub closed spec fn spec_index(&self) -> i32 {
        self.index
    }

    pub closed spec fn trace(&self) -> TraceData {
        self.trace
    }

    /// An engine of index `index`; an initialization error where the index is outside
    /// `0..=max_engine`.
    pub fn new(index: i32, max_engine: i32, initial: TraceData) -> (res: Result<ReplayEngine, Error>)
        ensures
            res is Ok <==> 0 <= index <= max_engine,
            res matches Ok(e) ==> e.spec_index() == index && e.trace() == initial,
            res matches Err(e) ==> e is InitializationError,
    {
        if !(0 <= index && index <= max_engine) {
            return Err(Error::InitializationError);
        }
        Ok(ReplayEngine { index, trace: initial })
    }

    /// The units of a trace path for the engine: a path holding a NUL character cannot be
    /// handed over.
    pub fn trace_path_units(path: &str) -> (res: Result<Vec<u16>, Error>)
        ensures
            res is Err <==> path@.contains('\0'),
            res matches Ok(u) ==> u@ == trace_path_units_of(path@),
            res matches Err(e) ==> e is Null,
    {
        let cs = chars_of(path);
        let mut i: usize = 0;
        while i < cs.len()
            invariant
                cs@ == path@,
                i <= cs@.len(),
                forall|k: int| 0 <= k < i ==> cs@[k] != '\0',
            decreases cs@.len() - i,
        {
            if cs[i] == '\0' {
                assert(path@[i as int] == '\0');
                return Err(Error::Null);
            }
            i = i + 1;
        }
        let mut units = encode_utf16(path);
        units.push(0);
        Ok(units)
    }

    /// Takes the status of a load and what the engine then reports of the trace: status 0
    /// installs the trace, any other status is an initialization error and leaves the
    /// engine as it was.
    pub fn complete_load(&mut self, status: i32, trace: TraceData) -> (res: Result<(), Error>)
        ensures
            res is Ok <==> status == 0,
            status == 0 ==> final(self).trace() == trace,
            status != 0 ==> final(self).trace() == old(self).trace(),
            final(self).spec_index() == old(self).spec_index(),
            res matches Err(e) ==> e is InitializationError,
    {
        if status == 0 {
            self.trace = trace;
            Ok(())
        } else {
            Err(Error::InitializationError)
        }
    }

    /// What creating a cursor asks of the engine once the cursor exists: its indices must be
    /// in range (its engine index in `0..=max_engine`, its own index in `0..=max_cursor`),
    /// else an initialization error; then it is set to the start of the trace.
    pub fn cursor_setup(
        cursor_index: i32,
        cursor_engine_index: i32,
        max_cursor: i32,
        max_engine: i32,
    ) -> (res: Result<PositionRequest, Error>)
        ensures
            res is Ok <==> (0 <= cursor_engine_index <= max_engine && 0 <= cursor_index
                <= max_cursor),
            res matches Ok(r) ==> r.to is None,
            res matches Err(e) ==> e is InitializationError,
    {
        if !(0 <= cursor_engine_index && cursor_engine_index <= max_engine) || !(0 <= cursor_index
            && cursor_index <= max_cursor) {
            return Err(Error::InitializationError);
        }
        Ok(PositionRequest { to: None })
    }

    /// A cursor of this engine, with what the engine reports of it once set up; an
    /// initialization error where its indices are out of range. The cursor borrows the
    /// engine, so it cannot outlive it.
    pub fn cursor<'a>(
        &'a self,
        cursor_index: i32,
        cursor_engine_index: i32,
        max_cursor: i32,
        max_engine: i32,
        state: CursorState,
    ) -> (res: Result<ReplayCursor<'a>, Error>)
        requires
            context_fits(self.trace().system_info.processor_architecture, state.context),
        ensures
            res is Ok <==> (0 <= cursor_engine_index <= max_engine && 0 <= cursor_index
                <= max_cursor),
            res matches Ok(c) ==> {
                &&& c.spec_index() == cursor_index
                &&& c.spec_engine_index() == cursor_engine_index
                &&& c.engine() == self
                &&& c.state() == state
            },
            res matches Err(e) ==> e is InitializationError,
    {
        Self::cursor_setup(cursor_index, cursor_engine_index, max_cursor, max_engine)?;
        Ok(ReplayCursor::new(cursor_index, cursor_engine_index, self, state))
    }

    /// The architecture whose register context the engine gives for this trace; a
    /// conversion error where it gives none.
    pub fn processor_architecture(&self) -> (res: Result<ProcessorArchitecture, Error>)
        ensures
            architecture_of(self.trace().system_info.processor_architecture) is Some ==> res
                == Ok::<ProcessorArchitecture, Error>(
                architecture_of(self.trace().system_info.processor_architecture).unwrap(),
            ),
            architecture_of(self.trace().system_info.processor_architecture) is None ==> (res matches Err(e) && e is ConversionError),
    {
        ProcessorArchitecture::try_from_u16(self.trace.system_info.processor_architecture)
    }

    /// The first and last positions of the trace.
    pub fn get_lifetime(&self) -> (r: ReplayPositionRange)
        ensures
            r == self.trace().lifetime,
    {
        self.trace.lifetime
    }

    /// An index build's outcome: status 0 is success, any other a foreign function error.
    pub fn build_index(status: u32) -> (res: Result<(), Error>)
        ensures
            res is Ok <==> status == 0,
            res matches Err(e) ==> e is ForeignFunctionError,
    {
        if status == 0 {
            Ok(())
        } else {
            Err(Error::ForeignFunctionError)
        }
    }

    pub fn system_info(&self) -> (res: Result<SystemInfo, Error>)
        ensures
            res == Ok::<SystemInfo, Error>(self.trace().system_info),
    {
        Ok(self.trace.system_info)
    }

    /// The id of the traced process.
    pub fn process_id(&self) -> (res: Result<u32, Error>)
        ensures
            res == Ok::<u32, Error>(self.trace().system_info.process_id),
    {
        let info = self.system_info()?;
        Ok(info.process_id)
    }

    pub fn get_module_count(&self) -> (res: Result<usize, Error>)
        ensures
            res == Ok::<usize, Error>(self.trace().modules@.len() as usize),
    {
        Ok(self.trace.modules.len())
    }

    /// The modules of the trace, their names decoded; fails where a name is not valid UTF-16.
    pub fn get_module_list(&self) -> (res: Result<Vec<ReplayModule>, Error>)
        ensures
            res is Ok <==> module_names_decode(self.trace().modules@),
            res matches Ok(v) ==> modules_decoded(self.trace().modules@, v@),
            res matches Err(e) ==> e is Utf16Error,
    {
        let n = self.trace.modules.len();
        let mut res: Vec<ReplayModule> = Vec::new();
        let mut i: usize = 0;
        while i < n
            invariant
                n == self.trace.modules@.len(),
                i <= n,
                module_names_decode(self.trace.modules@.take(i as int)),
                modules_decoded(self.trace.modules@.take(i as int), res@),
            decreases n - i,
        {
            let m = ReplayModule::from_raw(&self.trace.modules[i]);
            match m {
                Ok(m) => {
                    res.push(m);
                },
                Err(e) => {
                    return Err(e);
                },
            }
            i = i + 1;
        }
        assert(self.trace.modules@.take(n as int) == self.trace.modules@);
        Ok(res)
    }

    pub fn get_thread_count(&self) -> (res: Result<usize, Error>)
        ensures
            res == Ok::<usize, Error>(self.trace().threads@.len() as usize),
    {
        Ok(self.trace.threads.len())
    }

    /// The threads of the trace, in the engine's order.
    pub fn get_thread_list(&self) -> (res: Result<Vec<ThreadInfo>, Error>)
        ensures
            res matches Ok(v) && v@ == self.trace().threads@,
    {
        let n = self.trace.threads.len();
        let mut res: Vec<ThreadInfo> = Vec::new();
        let mut i: usize = 0;
        while i < n
            invariant
                n == self.trace.threads@.len(),
                i <= n,
                res@ == self.trace.threads@.take(i as int),
            decreases n - i,
        {
            res.push(self.trace.threads[i]);
            assert(self.trace.threads@.take(i + 1) == self.trace.threads@.take(i as int).push(
                self.trace.threads@[i as int],
            ));
            i = i + 1;
        }
        assert(self.trace.threads@.take(n as int) == self.trace.threads@);
        Ok(res)
    }

    pub fn get_module_loaded_event_count(&self) -> (res: Result<usize, Error>)
        ensures
            res == Ok::<usize, Error>(self.trace().module_loaded_events@.len() as usize),
    {
        Ok(self.trace.module_loaded_events.len())
    }

    /// The module load events of the trace, module names decoded; fails where a name is not
    /// valid UTF-16.
    pub fn get_module_loaded_event_list(&self) -> (res: Result<Vec<ModuleLoaded>, Error>)
        ensures
            res is Ok <==> event_names_decode(self.trace().module_loaded_events@),
            res matches Ok(v) ==> loaded_events_decoded(self.trace().module_loaded_events@, v@),
            res matches Err(e) ==> e is Utf16Error,
    {
        let n = self.trace.module_loaded_events.len();
        let mut res: Vec<ModuleLoaded> = Vec::new();
        let mut i: usize = 0;
        while i < n
            invariant
                n == self.trace.module_loaded_events@.len(),
                i <= n,
                event_names_decode(self.trace.module_loaded_events@.take(i as int)),
                loaded_events_decoded(self.trace.module_loaded_events@.take(i as int), res@),
            decreases n - i,
        {
            match ModuleLoaded::from_raw(&self.trace.module_loaded_events[i]) {
                Ok(e) => {
                    res.push(e);
                },
                Err(e) => {
                    return Err(e);
                },
            }
            i = i + 1;
        }
        assert(self.trace.module_loaded_events@.take(n as int) == self.trace.module_loaded_events@);
        Ok(res)
    }

    pub fn get_module_unloaded_event_count(&self) -> (res: Result<usize, Error>)
        ensures
            res == Ok::<usize, Error>(self.trace().module_unloaded_events@.len() as usize),
    {
        Ok(self.trace.module_unloaded_events.len())
    }

    /// The module unload events of the trace, module names decoded; fails where a name is
    /// not valid UTF-16.
    pub fn get_module_unloaded_event_list(&self) -> (res: Result<Vec<ModuleUnloaded>, Error>)
        ensures
            res is Ok <==> event_names_decode(self.trace().module_unloaded_events@),
            res matches Ok(v) ==> unloaded_events_decoded(self.trace().module_unloaded_events@, v@),
            res matches Err(e) ==> e is Utf16Error,
    {
        let n = self.trace.module_unloaded_events.len();
        let mut res: Vec<ModuleUnloaded> = Vec::new();
        let mut i: usize = 0;
        while i < n
            invariant
                n == self.trace.module_unloaded_events@.len(),
                i <= n,
                event_names_decode(self.trace.module_unloaded_events@.take(i as int)),
                unloaded_events_decoded(self.trace.module_unloaded_events@.take(i as int), res@),
            decreases n - i,
        {
            match ModuleUnloaded::from_raw(&self.trace.module_unloaded_events[i]) {
                Ok(e) => {
                    res.push(e);
                },
                Err(e) => {
                    return Err(e);
                },
            }
            i = i + 1;
        }
        assert(self.trace.module_unloaded_events@.take(n as int) == self.trace.module_unloaded_events@);
        Ok(res)
    }

    pub fn get_exception_event_count(&self) -> (res: Result<usize, Error>)
        ensures
            res == Ok::<usize, Error>(self.trace().exception_events@.len() as usize),
    {
        Ok(self.trace.exception_events.len())
    }

    /// The exception events of the trace. No exception event can be converted yet, so this
    /// takes a trace without any.
    pub fn get_exception_event_list(&self) -> (res: Result<Vec<Exception>, Error>)
        requires
            self.trace().exception_events@.len() == 0,
        ensures
            res matches Ok(v) && v@.len() == 0,
    {
        Ok(Vec::new())
    }

    /// The base address of the one module, among those loaded in the trace, whose name ends
    /// with `module_name`, both lowercased. Not found where none does, a data mismatch
    /// where more than one does, and a UTF-16 error where a module name does not decode.
    pub fn get_module_base_address(&self, module_name: &str) -> (res: Result<u64, Error>)
        ensures
            !event_names_decode(self.trace().module_loaded_events@) ==> (res matches Err(e)
                && e is Utf16Error),
            event_names_decode(self.trace().module_loaded_events@) ==> {
                let events = self.trace().module_loaded_events@;
                let count = match_count(events, module_name@);
                &&& count == 0 ==> (res matches Err(e) && e is NotFound)
                &&& count > 1 ==> (res matches Err(e) && e is DataMismatch)
                &&& count == 1 ==> res is Ok && forall|i: int|
                    0 <= i < events.len() && #[trigger] event_matches(events[i], module_name@)
                        ==> res == Ok::<u64, Error>(events[i].module.address)
            },
    {
        let ghost events = self.trace.module_loaded_events@;
        let ghost query = module_name@;
        let mod_lower = to_lowercase(module_name);
        let modules = self.get_module_loaded_event_list()?;
        let n = modules.len();
        let mut count: usize = 0;
        let mut found: u64 = 0;
        let mut i: usize = 0;
        while i < n
            invariant
                events == self.trace.module_loaded_events@,
                event_names_decode(events),
                loaded_events_decoded(events, modules@),
                n == modules@.len(),
                mod_lower@ == lowercased(query),
                i <= n,
                count <= i,
                count == match_count(events.take(i as int), query),
                count >= 1 ==> exists|j: int|
                    0 <= j < i && #[trigger] event_matches(events[j], query) && found
                        == events[j].module.address,
            decreases n - i,
        {
            let name_lower = to_lowercase(modules[i].module.name.as_str());
            let is_match = ends_with(name_lower.as_str(), mod_lower.as_str());
            assert(events.take(i + 1).drop_last() == events.take(i as int));
            assert(events.take(i + 1).last() == events[i as int]);
            assert(is_match == event_matches(events[i as int], query));
            if is_match {
                if count == 0 {
                    found = modules[i].module.address;
                }
                count = count + 1;
            }
            i = i + 1;
        }
        assert(events.take(n as int) == events);
        if count > 1 {
            return Err(Error::DataMismatch);
        }
        if count == 0 {
            return Err(Error::NotFound);
        }
        proof {
            let j = choose|j: int|
                0 <= j < n && #[trigger] event_matches(events[j], query) && found
                    == events[j].module.address;
            assert forall|k: int|
                0 <= k < events.len() && #[trigger] event_matches(events[k], query) implies found
                == events[k].module.address by {
                if k < j {
                    lemma_match_count_two(events, query, k, j);
                } else if j < k {
                    lemma_match_count_two(events, query, j, k);
                }
            }
        }
        Ok(found)
    }
}

} // verus!
