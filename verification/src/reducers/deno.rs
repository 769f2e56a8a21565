//! The reducer that runs a script module.

use super::reduce;
use super::failure_model;
use super::reduced;
use super::Method;
use super::ReduceFailure;
use crate::framework::config::Context;
use crate::framework::errors::LyraError;
use crate::framework::event::ChainEvent;
use crate::framework::event::EventModel;
use crate::framework::json::Json;
use vstd::prelude::*;
use vstd::string::StringExecFns;

verus! {

/// What stands before the name of a synchronous callback.
pub const SYNC_CALL_HEAD: &'static str = "Deno[Deno.internal].core.ops.op_put_record(";

/// What stands after the name of a synchronous callback.
pub const SYNC_CALL_TAIL: &'static str = "(Deno[Deno.internal].core.ops.op_pop_record()));";

/// The script that calls an asynchronous callback: what stands after the
/// name of the callback.
pub const ASYNC_CALL_TAIL: &'static str =
    "(Deno[Deno.internal].core.ops.op_pop_record()).then(x => Deno[Deno.internal].core.ops.op_put_record(x));";

/// The script that hands the pending block to a callback and keeps what it
/// returns.
pub open spec fn snippet(use_async: bool, method: Method) -> Seq<char> {
    if use_async {
        method.spec_name() + ASYNC_CALL_TAIL@
    } else {
        SYNC_CALL_HEAD@ + method.spec_name() + SYNC_CALL_TAIL@
    }
}

/// The settings of the reducer.
#[derive(Debug, PartialEq, Eq)]
pub struct Config {
    pub reducer_module: String,
    pub use_async: bool,
}

/// The state of the stage.
#[derive(Debug, PartialEq, Eq)]
pub struct Stage {
    pub reducer_module: String,
    pub storage_type: String,
    pub use_async: bool,
    pub ops_count: u64,
}

/// The stage in its first state.
pub open spec fn first_stage(config: Config, storage_type: String) -> Stage {
    Stage {
        reducer_module: config.reducer_module,
        storage_type,
        use_async: config.use_async,
        ops_count: 0,
    }
}

impl Config {
    /// The stage in its first state.
    pub fn bootstrapper(self, ctx: &Context) -> (r: Result<Stage, LyraError>)
        ensures
            r matches Ok(stage) && stage == first_stage(self, ctx.storage_type),
    {
        Ok(
            Stage {
                reducer_module: self.reducer_module,
                storage_type: ctx.storage_type.clone(),
                use_async: self.use_async,
                ops_count: 0,
            },
        )
    }
}

impl Stage {
    /// The script that invokes a callback of the loaded module.
    pub fn call_snippet(&self, method: Method) -> (script: String)
        ensures
            script@ == snippet(self.use_async, method),
    {
        if self.use_async {
            let mut script = String::from_str(method.name());
            script.append(ASYNC_CALL_TAIL);
            script
        } else {
            let mut script = String::from_str(SYNC_CALL_HEAD);
            script.append(method.name());
            script.append(SYNC_CALL_TAIL);
            script
        }
    }

    /// What to forward for an event, given the JSON that the callback
    /// returned.
    pub fn execute(&self, unit: &ChainEvent, output: &Json) -> (r: Result<
        Option<ChainEvent>,
        LyraError,
    >)
        ensures
            match r {
                Ok(Some(event)) => reduced(self.storage_type@, unit@, output@) == Ok::<
                    Option<EventModel>,
                    ReduceFailure,
                >(Some(event@)),
                Ok(None) => reduced(self.storage_type@, unit@, output@) == Ok::<
                    Option<EventModel>,
                    ReduceFailure,
                >(None),
                Err(e) => failure_model(e) is Some && reduced(
                    self.storage_type@,
                    unit@,
                    output@,
                ) == Err::<Option<EventModel>, ReduceFailure>(failure_model(e).unwrap()),
            },
    {
        reduce(self.storage_type.as_str(), unit, output)
    }
}

} // verus!
