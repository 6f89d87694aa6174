//! A reactive value-propagation engine.
//!
//! A set of mutable signal cells records updates together with the value each
//! update replaced, and marks itself dirty until a consumer observes and
//! clears the change.  Derived cells are fed by propagation steps — `map`,
//! `apply`, the `join`/`join_any` family and `bind` — each of which inspects
//! its upstream cells, consumes their pending changes and writes a recomputed
//! value downstream.  An ordered guard chain on every cell decides whether a
//! candidate update counts as a change worth delivering.
//!
//! The engine itself is single-stepped: every operation here is one critical
//! section over the cells it touches.  A runtime that polls on a fixed tick
//! wraps each cell in a lock and calls these steps from its task loops.

pub mod ged;
pub mod guard;
pub mod join;
pub mod laws;
pub mod signal;
pub mod transform;
pub mod value;
