//! Object handles, their memory strategies and binding guards.

pub mod gd;
pub mod guards;
pub mod instance_id;
pub mod mem;
pub mod traits;
