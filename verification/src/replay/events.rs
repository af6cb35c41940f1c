//! Events of a trace: modules loaded and unloaded, exceptions.
use vstd::prelude::*;

use crate::error::Error;
use crate::replay::{module_decoded, module_name_decodes, RawModule, ReplayModule, ReplayPosition};

verus! {

/// A module event as the engine reports it.
#[derive(Debug, Clone)]
pub struct RawModuleEvent {
    pub position: ReplayPosition,
    pub module: RawModule,
}

/// An exception event as the engine reports it.
#[derive(Debug, Clone, Copy)]
pub struct RawExceptionEvent {
    pub position: ReplayPosition,
}

/// A module was loaded at `position`.
#[derive(Debug, Clone)]
pub struct ModuleLoaded {
    pub position: ReplayPosition,
    pub module: ReplayModule,
}

/// A module was unloaded at `position`.
#[derive(Debug, Clone)]
pub struct ModuleUnloaded {
    pub position: ReplayPosition,
    pub module: ReplayModule,
}

/// An exception; no detail of it is kept.
#[derive(Debug, Clone, Copy)]
pub struct Exception {}

impl ModuleLoaded {
    /// The event with its module's name decoded.
    pub fn from_raw(raw: &RawModuleEvent) -> (res: Result<ModuleLoaded, Error>)
        ensures
            res is Ok <==> module_name_decodes(raw.module),
            res matches Ok(e) ==> e.position == raw.position && module_decoded(raw.module, e.module),
            res matches Err(e) ==> e is Utf16Error,
    {
        let module = ReplayModule::from_raw(&raw.module)?;
        Ok(ModuleLoaded { position: raw.position, module })
    }
}

impl ModuleUnloaded {
    /// The event with its module's name decoded.
    pub fn from_raw(raw: &RawModuleEvent) -> (res: Result<ModuleUnloaded, Error>)
        ensures
            res is Ok <==> module_name_decodes(raw.module),
            res matches Ok(e) ==> e.position == raw.position && module_decoded(raw.module, e.module),
            res matches Err(e) ==> e is Utf16Error,
    {
        let module = ReplayModule::from_raw(&raw.module)?;
        Ok(ModuleUnloaded { position: raw.position, module })
    }
}

} // verus!
