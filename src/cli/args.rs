use vstd::prelude::*;

verus! {

/// Parsed command line: a command and the verbosity flag.
#[derive(Debug, Clone, Copy, PartialEq, Eq, Structural)]
pub struct VibingCliParser {
    pub command: BaseCommands,
    /// Print out the trace from all the methods called.
    pub verbose: bool,
}

#[derive(Debug, Clone, Copy, PartialEq, Eq, Structural)]
pub enum BaseCommands {
    /// Authenticate to the application (required for most of the operations).
    Auth(AuthArgs),
    Club(ClubArgs),
}

#[derive(Debug, Clone, Copy, PartialEq, Eq, Structural)]
pub enum AuthArgs {
    /// Initiate the login process.
    Login,
    /// Logout from the current logged in account.
    Logout,
    /// Check your current authentication status.
    Check,
}

#[derive(Debug, Clone, Copy, PartialEq, Eq, Structural)]
pub enum ClubArgs {
    Get(ClubGetArgs),
}

#[derive(Debug, Clone, Copy, PartialEq, Eq, Structural)]
pub struct ClubGetArgs {
    pub club_id: u32,
}

} // verus!
