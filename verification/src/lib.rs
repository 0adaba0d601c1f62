//! The logic of a browser backend for an application event loop, kept free
//! of the browser itself.
//!
//! Input notifications of the host become application events in an ordered
//! queue that is emptied once per frame ([`app`], [`event`], [`queue`]);
//! the surface is sized by the device pixel ratio ([`surface`]); the query
//! string is split into its parameters ([`params`]); and a file load is a
//! completion slot that the host settles once and the caller polls and
//! reads ([`fs`], [`text`]).

pub mod app;
pub mod event;
pub mod fs;
pub mod params;
pub mod queue;
pub mod surface;
pub mod text;
