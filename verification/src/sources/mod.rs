//! The sources of chain events.

pub mod cbor;
pub mod u5c;

use crate::framework::config::Context;
use crate::framework::errors::LyraError;
use vstd::prelude::*;

verus! {

/// A source stage, ready to run.
#[derive(Debug)]
pub enum Bootstrapper {
    U5C(u5c::Stage),
    Cbor(cbor::Stage),
}

/// The settings of the chosen source.
#[derive(Debug)]
pub enum Config {
    U5C(u5c::Config),
    Cbor(cbor::Config),
}

impl Config {
    /// The stage of the chosen source, in its first state.
    pub fn bootstrapper(self, ctx: &Context) -> (r: Result<Bootstrapper, LyraError>)
        ensures
            match self {
                Config::U5C(c) => r matches Ok(Bootstrapper::U5C(stage)) && stage.config == c
                    && stage.intersect@ == ctx.intersect@ && stage.cursor@ == ctx.cursor@
                    && !stage.skipped && stage.ops_count == 0 && stage.chain_tip == 0,
                Config::Cbor(c) => r matches Ok(Bootstrapper::Cbor(stage)) && stage == (cbor::Stage {
                    config: c,
                    ops_count: 0,
                    chain_tip: 0,
                }),
            },
    {
        match self {
            Config::U5C(c) => match c.bootstrapper(ctx) {
                Ok(stage) => Ok(Bootstrapper::U5C(stage)),
                Err(e) => Err(e),
            },
            Config::Cbor(c) => match c.bootstrapper(ctx) {
                Ok(stage) => Ok(Bootstrapper::Cbor(stage)),
                Err(e) => Err(e),
            },
        }
    }
}

} // verus!
