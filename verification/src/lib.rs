//! capshift's installation doctor and menu-bar companion, as verified logic:
//! quoting for the shell and AppleScript, the commands that repair its
//! services, the health-check machine of `capshift doctor`, and the reading
//! of `ps` output that tells whether the root daemon runs.

pub mod commands;
pub mod doctor;
pub mod menubar;
pub mod quoting;
pub mod text;
