//! Registration of the notification-listener plugin with its host shell.
//!
//! `binding` holds the plugin's name and the names of the native listener
//! component; `setup` holds the setup routine's decisions as a session that
//! host glue drives: it asks which binding to make, makes it, and hands back
//! the outcome.
use vstd::prelude::*;

pub mod binding;
pub mod setup;

verus! {

} // verus!
