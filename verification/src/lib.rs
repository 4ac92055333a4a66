//! Resolves the assignee for a task by cross-referencing an on-call rotation
//! against a team-membership roster.
//!
//! The library holds the resolution logic itself: an orchestrator fetches the
//! roster and answers the rotation queries, while [`resolver::Resolver`]
//! decides, step by step, which schedule to consult next and when the
//! resolution is complete.

pub mod laws;
pub mod resolver;
pub mod roster;
