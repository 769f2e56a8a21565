//! The storage engines: what each commits for an event, and how the cursor
//! is persisted with it.

pub mod cursor_json;
pub mod none;
pub mod postgres;
pub mod redis;

use self::cursor_json::cursor_of_json;
use self::cursor_json::json_error_text;
use self::cursor_json::read_cursor_json;
use crate::framework::breadcrumbs::restorable;
use crate::framework::breadcrumbs::restored;
use crate::framework::breadcrumbs::Breadcrumbs;
use crate::framework::config::finalize_model;
use crate::framework::config::Context;
use crate::framework::errors::LyraError;
use crate::framework::point::PointModel;
use crate::runtime::WorkerError;
use vstd::prelude::*;

verus! {

/// What a storage stage does before it takes an event.
#[derive(Debug, Clone, Copy, PartialEq, Eq, Structural)]
pub enum Intake {
    /// The stop condition was met: take nothing more and shut down cleanly.
    Done,
    /// Take the next event and work on it.
    Receive,
}

/// The intake of a stage, by its stop flag.
pub open spec fn intake(should_finalize: bool) -> Intake {
    if should_finalize {
        Intake::Done
    } else {
        Intake::Receive
    }
}

/// What follows where the backend refuses a call of a transaction: the
/// calls that roll the transaction back, and how the worker fails.
#[derive(Debug, PartialEq, Eq)]
pub struct Recovery<Op> {
    pub rollback: Vec<Op>,
    pub error: WorkerError,
}

/// The cursor that a stored text stands for: empty where nothing was
/// stored, none where the text is no persisted list or holds a hash that
/// is not hexadecimal.
pub open spec fn loaded(stored: Option<Seq<char>>) -> Option<Seq<PointModel>> {
    match stored {
        None => Some(Seq::empty()),
        Some(text) => match cursor_of_json(text) {
            Some(data) => if restorable(data) {
                Some(restored(data))
            } else {
                None
            },
            None => None,
        },
    }
}

/// What an optional text stands for.
pub open spec fn text_model(text: Option<String>) -> Option<Seq<char>> {
    match text {
        Some(t) => Some(t@),
        None => None,
    }
}

/// Whether a result is what loading the cursor owes: the cursor that the
/// stored text stands for; a parsing failure where the text is no persisted
/// list; a configuration failure where a hash in it is not hexadecimal.
pub open spec fn restores(stored: Option<String>, r: Result<Breadcrumbs, LyraError>) -> bool {
    match r {
        Ok(cursor) => loaded(text_model(stored)) == Some(cursor@),
        Err(e) => loaded(text_model(stored)) is None && match stored {
            Some(text) => match cursor_of_json(text@) {
                Some(_) => e is Config,
                None => e is Parsing,
            },
            None => false,
        },
    }
}

/// The cursor to resume from, given what the backend holds under the cursor
/// name. Nothing stored is an empty cursor.
pub fn restore_cursor(stored: &Option<String>) -> (r: Result<Breadcrumbs, LyraError>)
    ensures
        restores(*stored, r),
{
    match stored {
        None => Ok(Breadcrumbs::new()),
        Some(text) => match read_cursor_json(text.as_str()) {
            Ok(data) => Breadcrumbs::from_data(data),
            Err(e) => Err(LyraError::parsing(json_error_text(&e))),
        },
    }
}

/// A storage stage, ready to run.
#[derive(Debug)]
pub enum Bootstrapper {
    Null(none::Stage),
    Postgres(postgres::Stage),
    Redis(redis::Stage),
}

/// The settings of the chosen engine.
#[derive(Debug)]
pub enum Config {
    Null(none::Config),
    Postgres(postgres::Config),
    Redis(redis::Config),
}

impl Config {
    /// The stage of the chosen engine, in its first state.
    pub fn bootstrapper(self, ctx: &Context) -> (r: Result<Bootstrapper, LyraError>)
        ensures
            match self {
                Config::Null(c) => r matches Ok(Bootstrapper::Null(stage)) && stage@
                    == none::first_stage(finalize_model(ctx.finalize)),
                Config::Postgres(c) => r matches Ok(Bootstrapper::Postgres(stage)) && stage@
                    == postgres::first_stage(c, ctx.cursor@, finalize_model(ctx.finalize)),
                Config::Redis(c) => r matches Ok(Bootstrapper::Redis(stage)) && stage@
                    == redis::first_stage(c, ctx.cursor@, finalize_model(ctx.finalize)),
            },
    {
        match self {
            Config::Null(c) => match c.bootstrapper(ctx) {
                Ok(stage) => Ok(Bootstrapper::Null(stage)),
                Err(e) => Err(e),
            },
            Config::Postgres(c) => match c.bootstrapper(ctx) {
                Ok(stage) => Ok(Bootstrapper::Postgres(stage)),
                Err(e) => Err(e),
            },
            Config::Redis(c) => match c.bootstrapper(ctx) {
                Ok(stage) => Ok(Bootstrapper::Redis(stage)),
                Err(e) => Err(e),
            },
        }
    }

    /// The cursor to resume from, given what the backend holds under the
    /// cursor name. The engine that stores nothing always resumes from an
    /// empty cursor.
    pub fn load_cursor(&self, stored: &Option<String>) -> (r: Result<Breadcrumbs, LyraError>)
        ensures
            self is Null ==> (r matches Ok(cursor) && cursor@ == Seq::<PointModel>::empty()),
            !(self is Null) ==> restores(*stored, r),
    {
        match self {
            Config::Null(c) => c.load_cursor(),
            Config::Postgres(c) => c.load_cursor(stored),
            Config::Redis(c) => c.load_cursor(stored),
        }
    }

    /// The name of the chosen engine.
    pub fn get_type(&self) -> (name: &'static str)
        ensures
            name@ == match self {
                Config::Null(_) => "None"@,
                Config::Postgres(_) => "Postgres"@,
                Config::Redis(_) => "Redis"@,
            },
    {
        match self {
            Config::Null(_) => "None",
            Config::Postgres(_) => "Postgres",
            Config::Redis(_) => "Redis",
        }
    }
}

} // verus!
