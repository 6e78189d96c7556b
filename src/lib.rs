//! Translation of operating-system power and session notifications into a
//! small vocabulary of typed events, and the registration lifecycle of the
//! monitor that receives them.
pub mod event;
pub mod monitor;
pub mod translate;
