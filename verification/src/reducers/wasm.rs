//! The reducer that runs a WebAssembly plug-in.

use super::reduce;
use super::failure_model;
use super::reduced;
use super::ReduceFailure;
use crate::framework::config::Context;
use crate::framework::errors::LyraError;
use crate::framework::event::ChainEvent;
use crate::framework::event::EventModel;
use crate::framework::json::Json;
use vstd::prelude::*;

verus! {

/// The settings of the reducer.
#[derive(Debug, Default, PartialEq, Eq)]
pub struct Config {
    pub path: String,
}

/// The state of the stage.
#[derive(Debug, PartialEq, Eq)]
pub struct Stage {
    pub path: String,
    pub storage_type: String,
    pub ops_count: u64,
}

/// The stage in its first state.
pub open spec fn first_stage(config: Config, storage_type: String) -> Stage {
    Stage { path: config.path, storage_type, ops_count: 0 }
}

impl Config {
    /// The stage in its first state.
    pub fn bootstrapper(self, ctx: &Context) -> (r: Result<Stage, LyraError>)
        ensures
            r matches Ok(stage) && stage == first_stage(self, ctx.storage_type),
    {
        Ok(Stage { path: self.path, storage_type: ctx.storage_type.clone(), ops_count: 0 })
    }
}

impl Stage {
    /// What to forward for an event, given the JSON that the callback
    /// returned; what is forwarded is counted.
    pub fn execute(&mut self, unit: &ChainEvent, output: &Json) -> (r: Result<
        Option<ChainEvent>,
        LyraError,
    >)
        ensures
            match r {
                Ok(Some(event)) => reduced(old(self).storage_type@, unit@, output@) == Ok::<
                    Option<EventModel>,
                    ReduceFailure,
                >(Some(event@)),
                Ok(None) => reduced(old(self).storage_type@, unit@, output@) == Ok::<
                    Option<EventModel>,
                    ReduceFailure,
                >(None),
                Err(e) => failure_model(e) is Some && reduced(
                    old(self).storage_type@,
                    unit@,
                    output@,
                ) == Err::<Option<EventModel>, ReduceFailure>(failure_model(e).unwrap()),
            },
            final(self).path == old(self).path,
            final(self).storage_type == old(self).storage_type,
            final(self).ops_count == if r matches Ok(Some(_)) {
                if old(self).ops_count == u64::MAX {
                    0
                } else {
                    (old(self).ops_count + 1) as u64
                }
            } else {
                old(self).ops_count
            },
    {
        let r = reduce(self.storage_type.as_str(), unit, output);
        match &r {
            Ok(Some(_)) => {
                self.ops_count = self.ops_count.wrapping_add(1);
            },
            _ => {},
        }
        r
    }
}

} // verus!
