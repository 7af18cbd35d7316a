//! Scalar functions lifted to operators over whole columns, and native
//! functions bound to a call interface over dynamically tagged values.

pub mod apply;
pub mod batch;
pub mod binder;
pub mod column;
pub mod error;
pub mod handle;
pub mod operator;
pub mod params;
pub mod search;
pub mod signature;
pub mod types;
pub mod value;
