//! The shared vocabulary of the pipeline.

pub mod breadcrumbs;
pub mod config;
pub mod context;
pub mod decimal;
pub mod errors;
pub mod event;
pub mod hexcode;
pub mod json;
pub mod model;
pub mod point;

pub use self::breadcrumbs::Breadcrumbs;
pub use self::breadcrumbs::MAX_BREADCRUMBS;
pub use self::config::should_finalize;
pub use self::config::ChainConfig;
pub use self::config::Context;
pub use self::config::FinalizeConfig;
pub use self::config::GenesisValues;
pub use self::config::IntersectConfig;
pub use self::errors::LyraError;
pub use self::event::Block;
pub use self::event::BlockHeader;
pub use self::event::ChainEvent;
pub use self::event::Record;
pub use self::point::Point;
pub use self::point::PointModel;
