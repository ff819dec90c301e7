//! Verified core of a remote packet-redirect manager.
//!
//! The library contains everything that can be stated and proved about the
//! tool: the firewall program generator, a model of the remote rule table,
//! the lifecycle state machine of one redirect attempt, and the retry
//! supervisor's decisions. The surrounding binary performs the actual
//! network and process work and feeds plain events back into these types.

pub mod command;
pub mod lifecycle;
pub mod remote;
pub mod rule;
pub mod supervisor;
