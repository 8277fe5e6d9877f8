use vstd::prelude::*;

verus! {

/// The settings that the application keeps between runs.
#[derive(Debug, Clone, Copy, PartialEq, Eq, Structural)]
pub struct Config {
    pub has_account: bool,
}

impl Default for Config {
    /// No account is set up yet.
    fn default() -> (c: Self)
        ensures
            !c.has_account,
    {
        Config { has_account: false }
    }
}

impl Config {
    /// Records that an account is set up.
    pub fn set_has_account(&mut self)
        ensures
            *final(self) == (Config { has_account: true }),
    {
        self.has_account = true;
    }
}

} // verus!
