use vstd::prelude::*;

verus! {

/// The port the provider's registered redirect URI names; the listener
/// tries it first.
pub const FIXED_PORT: u16 = 3000;

/// One attempt to bind the loopback listener.
#[derive(Clone, Copy, Debug, PartialEq, Eq, Structural)]
pub enum BindAttempt {
    /// Bind the fixed, registered port.
    Fixed,
    /// Bind a port the operating system picks.
    Ephemeral,
}

impl BindAttempt {
    /// The port to ask for: the fixed port, or 0 for one the system picks.
    pub fn port(&self) -> (r: u16)
        ensures
            r == (match self {
                BindAttempt::Fixed => FIXED_PORT,
                BindAttempt::Ephemeral => 0u16,
            }),
    {
        match self {
            BindAttempt::Fixed => FIXED_PORT,
            BindAttempt::Ephemeral => 0,
        }
    }
}

/// The bind attempt to make after `failed` failed (`None`: before any
/// attempt). The fixed port comes first, then an ephemeral one; after both
/// failed there is none, and the session start fails.
pub fn next_bind_attempt(failed: Option<BindAttempt>) -> (r: Option<BindAttempt>)
    ensures
        r == (match failed {
            None => Some(BindAttempt::Fixed),
            Some(BindAttempt::Fixed) => Some(BindAttempt::Ephemeral),
            Some(BindAttempt::Ephemeral) => None::<BindAttempt>,
        }),
{
    match failed {
        None => Some(BindAttempt::Fixed),
        Some(BindAttempt::Fixed) => Some(BindAttempt::Ephemeral),
        Some(BindAttempt::Ephemeral) => None,
    }
}

} // verus!
