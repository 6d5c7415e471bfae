//! The instructions of the program, one module each. Every handler checks its
//! guards before it changes anything, so a refused instruction leaves its
//! accounts exactly as they were.
pub mod accept_bounty;
pub mod claim_bounty;
pub mod confirm_bounty;
pub mod create_bounty;
pub mod initialize;
pub mod submit_bounty;
