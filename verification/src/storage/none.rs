//! The engine that stores nothing: it follows the chain and knows when to
//! stop.

use crate::framework::breadcrumbs::Breadcrumbs;
use crate::framework::config::clone_finalize;
use crate::framework::config::finalize_model;
use crate::framework::config::finalizes;
use crate::framework::config::should_finalize;
use crate::framework::config::Context;
use crate::framework::config::FinalizeConfig;
use crate::framework::config::FinalizeModel;
use crate::framework::errors::LyraError;
use crate::framework::event::ChainEvent;
use crate::framework::point::PointModel;
use super::Intake;
use super::intake;
use crate::framework::event::EventModel;
use vstd::prelude::*;

verus! {

/// The settings of the engine: it has none.
#[derive(Debug, Default)]
pub struct Config {}

/// The state of the stage.
#[derive(Debug)]
pub struct Stage {
    pub finalize: Option<FinalizeConfig>,
    pub should_finalize: bool,
    pub ops_count: u64,
    pub latest_block: i64,
}

/// What a [`Stage`] stands for.
pub struct StageModel {
    pub finalize: Option<FinalizeModel>,
    pub should_finalize: bool,
    pub ops_count: u64,
    pub latest_block: i64,
}

impl View for Stage {
    type V = StageModel;

    open spec fn view(&self) -> StageModel {
        StageModel {
            finalize: finalize_model(self.finalize),
            should_finalize: self.should_finalize,
            ops_count: self.ops_count,
            latest_block: self.latest_block,
        }
    }
}

impl StageModel {
    /// The stage with one more event counted, the slot of `point` recorded,
    /// and the flag raised where the stop condition is met at `point`.
    pub open spec fn noted(self, point: PointModel) -> StageModel {
        StageModel {
            finalize: self.finalize,
            should_finalize: self.should_finalize || finalizes(self.finalize, point),
            ops_count: if self.ops_count == u64::MAX {
                0
            } else {
                (self.ops_count + 1) as u64
            },
            latest_block: point.slot() as i64,
        }
    }

    /// The stage after an event: an event with a record is taken note of;
    /// one without, a reset among them, is ignored.
    pub open spec fn after(self, event: EventModel) -> StageModel {
        match event.record() {
            Some(_) => self.noted(event.point()),
            None => self,
        }
    }
}

/// The stage in its first state: nothing counted, not finalized.
pub open spec fn first_stage(finalize: Option<FinalizeModel>) -> StageModel {
    StageModel { finalize, should_finalize: false, ops_count: 0, latest_block: 0 }
}

impl Config {
    /// The stage in its first state.
    pub fn bootstrapper(self, ctx: &Context) -> (r: Result<Stage, LyraError>)
        ensures
            r matches Ok(stage) && stage@ == first_stage(finalize_model(ctx.finalize)),
    {
        Ok(
            Stage {
                finalize: clone_finalize(&ctx.finalize),
                should_finalize: false,
                ops_count: 0,
                latest_block: 0,
            },
        )
    }

    /// The cursor of this engine: always empty.
    pub fn load_cursor(&self) -> (r: Result<Breadcrumbs, LyraError>)
        ensures
            r matches Ok(cursor) && cursor@ == Seq::<PointModel>::empty(),
    {
        Ok(Breadcrumbs::new())
    }
}

impl Stage {
    /// What to do before the next event is taken: nothing more once the
    /// stop condition was met.
    pub fn schedule(&self) -> (r: Intake)
        ensures
            r == intake(self.should_finalize),
    {
        if self.should_finalize {
            Intake::Done
        } else {
            Intake::Receive
        }
    }

    /// Takes note of an event with a record: counts it, records its slot,
    /// and raises the flag where the stop condition is met at its point.
    /// An event without a record, a reset among them, is ignored. Tells
    /// whether the event was taken note of.
    pub fn execute(&mut self, unit: &ChainEvent) -> (noted: bool)
        ensures
            final(self)@ == old(self)@.after(unit@),
            noted == (unit@.record() is Some),
    {
        match unit.record() {
            Some(_) => {
                let point = unit.point();
                self.ops_count = self.ops_count.wrapping_add(1);
                self.latest_block = slot_gauge(point.slot_or_default());
                if should_finalize(&self.finalize, point) {
                    self.should_finalize = true;
                }
                true
            },
            None => false,
        }
    }
}

/// The slot as the gauge shows it: the same 64 bits, read as a signed
/// number.
pub fn slot_gauge(slot: u64) -> (r: i64)
    ensures
        r == slot as i64,
{
    #[verifier::truncate]
    (slot as i64)
}

} // verus!
