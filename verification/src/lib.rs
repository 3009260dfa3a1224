//! Remote administration of game servers over a remote console: the session
//! protocol, the roster grammar, and the kick and ban pipeline.

pub mod frame;
pub mod inventory;
pub mod moderation;
pub mod outcome;
pub mod pattern;
pub mod reconcile;
pub mod roster;
pub mod session;
pub mod text;
