//! The engine for a relational store: each event becomes one transaction
//! that runs its statements and upserts the cursor with them.

use super::cursor_json::cursor_json;
use super::cursor_json::json_error_text;
use super::cursor_json::lemma_persisted_is_plain;
use super::cursor_json::write_cursor_json;
use super::none::slot_gauge;
use crate::framework::breadcrumbs::after_track;
use crate::framework::breadcrumbs::persisted;
use crate::framework::breadcrumbs::Breadcrumbs;
use crate::framework::config::clone_finalize;
use crate::framework::config::finalize_model;
use crate::framework::config::finalizes;
use crate::framework::config::should_finalize;
use crate::framework::config::Context;
use crate::framework::config::FinalizeConfig;
use crate::framework::config::FinalizeModel;
use crate::framework::errors::LyraError;
use crate::framework::event::statements_model;
use crate::framework::event::ChainEvent;
use crate::framework::event::EventModel;
use crate::framework::event::Record;
use crate::framework::event::RecordModel;
use crate::framework::point::PointModel;
use super::Intake;
use super::intake;
use super::Recovery;
use crate::runtime::WorkerError;
use vstd::prelude::*;
use vstd::string::StringExecFns;

verus! {

/// What a [`SqlCall`] stands for: the text of a statement and its
/// parameters.
pub struct CallModel {
    pub query: Seq<char>,
    pub params: Seq<Seq<char>>,
}

/// One statement to run, with the text parameters bound to `$1`, `$2`, ...
#[derive(Debug, PartialEq, Eq)]
pub struct SqlCall {
    pub query: String,
    pub params: Vec<String>,
}

impl View for SqlCall {
    type V = CallModel;

    open spec fn view(&self) -> CallModel {
        CallModel { query: self.query@, params: self.params@.map_values(|p: String| p@) }
    }
}

/// What a list of statements to run stands for.
pub open spec fn calls_model(calls: Seq<SqlCall>) -> Seq<CallModel> {
    calls.map_values(|c: SqlCall| c@)
}

/// A statement without parameters.
pub open spec fn plain(query: Seq<char>) -> CallModel {
    CallModel { query, params: Seq::empty() }
}

/// The statement that writes the cursor into the table `cursor` of a
/// schema, in place of what is there under the same name.
pub open spec fn upsert_query(schema: Seq<char>) -> Seq<char> {
    "INSERT INTO "@ + schema
        + ".cursor (name, data) VALUES ($1, $2) ON CONFLICT (name) DO UPDATE SET data = EXCLUDED.data"@
}

/// The query that reads the cursor of a name from the table `cursor` of a
/// schema.
pub open spec fn select_query(schema: Seq<char>, cursor_name: Seq<char>) -> Seq<char> {
    "SELECT data FROM "@ + schema + ".cursor WHERE name = '"@ + cursor_name + "';"@
}

/// The transaction of one event: `BEGIN`, its statements in order, the
/// cursor upserted under its name, `COMMIT`.
pub open spec fn transaction(
    statements: Seq<Seq<char>>,
    schema: Seq<char>,
    cursor_name: Seq<char>,
    cursor_text: Seq<char>,
) -> Seq<CallModel> {
    seq![plain("BEGIN"@)] + statements.map_values(|s: Seq<char>| plain(s)) + seq![
        CallModel { query: upsert_query(schema), params: seq![cursor_name, cursor_text] },
        plain("COMMIT"@),
    ]
}

/// A statement without parameters.
fn plain_call(query: &str) -> (call: SqlCall)
    ensures
        call@ == plain(query@),
{
    let call = SqlCall { query: String::from_str(query), params: Vec::new() };
    assert(call@.params =~= Seq::<Seq<char>>::empty());
    call
}

/// The transaction of one event, given the text of the cursor to persist.
pub fn plan_transaction(
    statements: &Vec<String>,
    schema: &str,
    cursor_name: &str,
    cursor_text: &str,
) -> (calls: Vec<SqlCall>)
    ensures
        calls_model(calls@) == transaction(
            statements_model(statements@),
            schema@,
            cursor_name@,
            cursor_text@,
        ),
{
    let ghost all = statements_model(statements@);
    let mut calls: Vec<SqlCall> = Vec::new();
    calls.push(plain_call("BEGIN"));
    let mut i: usize = 0;
    while i < statements.len()
        invariant
            i <= statements@.len(),
            all == statements_model(statements@),
            calls@.len() == i + 1,
            calls@[0]@ == plain("BEGIN"@),
            forall|k: int| 0 <= k < i ==> (#[trigger] calls@[k + 1])@ == plain(all[k]),
        decreases statements@.len() - i,
    {
        calls.push(plain_call(statements[i].as_str()));
        i += 1;
    }
    let mut query = String::from_str("INSERT INTO ");
    query.append(schema);
    query.append(
        ".cursor (name, data) VALUES ($1, $2) ON CONFLICT (name) DO UPDATE SET data = EXCLUDED.data",
    );
    let mut params: Vec<String> = Vec::new();
    params.push(String::from_str(cursor_name));
    params.push(String::from_str(cursor_text));
    let upsert = SqlCall { query, params };
    assert(upsert@.params =~= seq![cursor_name@, cursor_text@]);
    calls.push(upsert);
    calls.push(plain_call("COMMIT"));
    proof {
        let expected = transaction(all, schema@, cursor_name@, cursor_text@);
        assert forall|k: int| 0 <= k < expected.len() implies calls_model(calls@)[k]
            == expected[k] by {
            if 1 <= k <= all.len() {
                assert(calls@[(k - 1) + 1]@ == plain(all[k - 1]));
            }
        }
    }
    calls
}

/// The settings of the engine.
#[derive(Debug, Default, PartialEq, Eq)]
pub struct Config {
    pub url: String,
    pub schema: String,
    pub cursor_name: String,
}

/// The state of the stage.
#[derive(Debug)]
pub struct Stage {
    pub config: Config,
    pub cursor: Breadcrumbs,
    pub finalize: Option<FinalizeConfig>,
    pub should_finalize: bool,
    pub ops_count: u64,
    pub latest_block: i64,
}

/// What a [`Stage`] stands for.
pub struct StageModel {
    pub url: Seq<char>,
    pub schema: Seq<char>,
    pub cursor_name: Seq<char>,
    pub cursor: Seq<PointModel>,
    pub finalize: Option<FinalizeModel>,
    pub should_finalize: bool,
    pub ops_count: u64,
    pub latest_block: i64,
}

impl View for Stage {
    type V = StageModel;

    open spec fn view(&self) -> StageModel {
        StageModel {
            url: self.config.url@,
            schema: self.config.schema@,
            cursor_name: self.config.cursor_name@,
            cursor: self.cursor@,
            finalize: finalize_model(self.finalize),
            should_finalize: self.should_finalize,
            ops_count: self.ops_count,
            latest_block: self.latest_block,
        }
    }
}

impl StageModel {
    /// The stage with its cursor moved to `point`.
    pub open spec fn following(self, point: PointModel) -> StageModel {
        StageModel { cursor: after_track(self.cursor, point), ..self }
    }

    /// The stage with one more event counted, the slot of `point` recorded,
    /// and the flag raised where the stop condition is met at `point`.
    pub open spec fn noted(self, point: PointModel) -> StageModel {
        StageModel {
            should_finalize: self.should_finalize || finalizes(self.finalize, point),
            ops_count: if self.ops_count == u64::MAX {
                0
            } else {
                (self.ops_count + 1) as u64
            },
            latest_block: point.slot() as i64,
            ..self
        }
    }

    /// The stage after the work for an event was done. For statements the
    /// cursor has moved to the point of the event, and the event is
    /// counted. Any other record is counted and leaves the cursor. An event
    /// without a record, a reset among them, leaves the stage as it is.
    pub open spec fn committed(self, event: EventModel) -> StageModel {
        match event.record() {
            Some(RecordModel::SQLCommand(_)) => self.following(event.point()).noted(
                event.point(),
            ),
            Some(_) => self.noted(event.point()),
            None => self,
        }
    }

    /// The JSON text under which the cursor is persisted once it has moved
    /// to `point`: `[[slot,"hash"],...]`, newest first.
    pub open spec fn cursor_text(self, point: PointModel) -> Seq<char> {
        cursor_json(persisted(after_track(self.cursor, point)))
    }
}

/// What follows where the store refuses the call at `failed_at` of a
/// transaction: the transaction is rolled back, unless it was not even
/// begun, and the work is tried again under the retry policy.
pub open spec fn recovery(failed_at: usize) -> (Seq<CallModel>, WorkerError) {
    (
        if failed_at == 0 {
            Seq::empty()
        } else {
            seq![plain("ROLLBACK"@)]
        },
        WorkerError::Retry,
    )
}

/// The stage in its first state: at the loaded cursor, nothing counted,
/// not finalized.
pub open spec fn first_stage(
    config: Config,
    cursor: Seq<PointModel>,
    finalize: Option<FinalizeModel>,
) -> StageModel {
    StageModel {
        url: config.url@,
        schema: config.schema@,
        cursor_name: config.cursor_name@,
        cursor,
        finalize,
        should_finalize: false,
        ops_count: 0,
        latest_block: 0,
    }
}

impl Config {
    /// The stage in its first state.
    pub fn bootstrapper(self, ctx: &Context) -> (r: Result<Stage, LyraError>)
        ensures
            r matches Ok(stage) && stage@ == first_stage(
                self,
                ctx.cursor@,
                finalize_model(ctx.finalize),
            ),
    {
        Ok(
            Stage {
                config: self,
                cursor: ctx.cursor.clone(),
                finalize: clone_finalize(&ctx.finalize),
                should_finalize: false,
                ops_count: 0,
                latest_block: 0,
            },
        )
    }

    /// The query that reads the persisted cursor.
    pub fn cursor_query(&self) -> (query: String)
        ensures
            query@ == select_query(self.schema@, self.cursor_name@),
    {
        let mut query = String::from_str("SELECT data FROM ");
        query.append(self.schema.as_str());
        query.append(".cursor WHERE name = '");
        query.append(self.cursor_name.as_str());
        query.append("';");
        query
    }

    /// The cursor to resume from, given the row that the store holds under
    /// the cursor name; no row is an empty cursor.
    pub fn load_cursor(&self, stored: &Option<String>) -> (r: Result<Breadcrumbs, LyraError>)
        ensures
            super::restores(*stored, r),
    {
        super::restore_cursor(stored)
    }
}

impl Stage {
    /// What to do before the next event is taken: nothing more once the
    /// stop condition was met.
    pub fn schedule(&self) -> (r: Intake)
        ensures
            r == intake(self.should_finalize),
    {
        if self.should_finalize {
            Intake::Done
        } else {
            Intake::Receive
        }
    }

    /// The statements to run for an event. An event without a record, a
    /// reset among them, asks for no work at all. For statements the
    /// transaction runs them and upserts the cursor as it will stand once
    /// it has moved to the point of the event. Any other record runs
    /// nothing. The stage itself changes only once the work is done.
    pub fn execute(&self, unit: &ChainEvent) -> (r: Result<Option<Vec<SqlCall>>, LyraError>)
        ensures
            match unit@.record() {
                None => r matches Ok(None),
                Some(RecordModel::SQLCommand(statements)) => r matches Ok(Some(calls))
                    && calls_model(calls@) == transaction(
                    statements,
                    self@.schema,
                    self@.cursor_name,
                    self@.cursor_text(unit@.point()),
                ),
                Some(_) => r matches Ok(Some(calls)) && calls@.len() == 0,
            },
    {
        let statements = match unit.record() {
            None => {
                return Ok(None);
            },
            Some(Record::SQLCommand(statements)) => statements,
            Some(_) => {
                return Ok(Some(Vec::new()));
            },
        };
        let mut cursor = self.cursor.clone();
        cursor.track(unit.point().clone());
        proof {
            lemma_persisted_is_plain(cursor@);
        }
        let cursor_text = match write_cursor_json(&cursor.to_data()) {
            Ok(text) => text,
            Err(e) => {
                return Err(LyraError::parsing(json_error_text(&e)));
            },
        };
        Ok(
            Some(
                plan_transaction(
                    statements,
                    self.config.schema.as_str(),
                    self.config.cursor_name.as_str(),
                    cursor_text.as_str(),
                ),
            ),
        )
    }

    /// Takes note that the work for an event was done: for statements the
    /// cursor moves to its point; an event with a record is counted, and
    /// the flag is raised where the stop condition is met.
    pub fn stored(&mut self, unit: &ChainEvent)
        ensures
            final(self)@ == old(self)@.committed(unit@),
    {
        match unit.record() {
            Some(record) => {
                let point = unit.point();
                match record {
                    Record::SQLCommand(_) => {
                        self.cursor.track(point.clone());
                    },
                    _ => {},
                }
                self.ops_count = self.ops_count.wrapping_add(1);
                self.latest_block = slot_gauge(point.slot_or_default());
                if should_finalize(&self.finalize, point) {
                    self.should_finalize = true;
                }
            },
            None => {},
        }
    }

    /// What follows where the store refuses the call at `failed_at` of a
    /// transaction. The stage is as it was before the transaction: its
    /// cursor moves once the work is done only.
    pub fn on_failure(failed_at: usize) -> (r: Recovery<SqlCall>)
        ensures
            (calls_model(r.rollback@), r.error) == recovery(failed_at),
    {
        let mut rollback: Vec<SqlCall> = Vec::new();
        if failed_at != 0 {
            rollback.push(plain_call("ROLLBACK"));
        }
        assert(calls_model(rollback@) =~= recovery(failed_at).0);
        Recovery { rollback, error: WorkerError::Retry }
    }
}

} // verus!
