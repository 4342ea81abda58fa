//! Ranking engine and session state machine of a quick-launch overlay.
//!
//! A hotkey summons an overlay in which the user types a query and picks
//! one of the results. [`search`] turns a query into the ranked list of
//! results, with the help of [`matching`], [`fuzzy`], [`aliases`] and
//! [`calc`]. [`session`] keeps the state of the overlay from frame to frame,
//! and [`dispatch`] decides what follows from a selection. [`config`] and
//! [`util`] hold the settings and what is made of them at start-up.
//!
//! The library draws nothing and calls nothing in the operating system. Its
//! functions take what was observed and return what is to be done.

pub mod aliases;
pub mod calc;
pub mod config;
pub mod dispatch;
pub mod fuzzy;
pub mod matching;
pub mod results;
pub mod search;
pub mod session;
pub mod text;
pub mod util;
