//! Live property synchronisation for sensor-backed things.
//!
//! A [`thing::Thing`] owns named [`property::Property`] values with fixed
//! schemas. A background [`update_loop::UpdateLoop`] turns sensor readings into
//! schema-valid values and commits them through a [`handle::SharedHandle`],
//! which gives many readers or one writer access to the thing. Every numeric
//! value in this crate is an integer count of thousandths of its unit.

pub mod dispatch;
pub mod handle;
pub mod history;
pub mod property;
pub mod reading;
pub mod registry;
pub mod sensors;
mod text;
pub mod thing;
pub mod update_loop;
