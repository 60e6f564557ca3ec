//! The run's configuration: senders, recipients and the amount of each transfer.

use vstd::prelude::*;

verus! {

/// Minor units (lamports) in one coin.
pub const LAMPORTS_PER_SOL: u64 = 1_000_000_000;

/// A configuration that was refused.
#[derive(Debug, Clone, Copy, PartialEq, Eq, Structural)]
pub enum ConfigError {
    /// The sender list is empty, so no recipient can be given a sender.
    NoSenders,
    /// The amount to transfer is zero.
    ZeroAmount,
}

/// Senders (base58 keypairs), recipients (base58 addresses or keypairs) and
/// the amount of every transfer, in lamports.
pub struct Config {
    pub sender: Vec<String>,
    pub to: Vec<String>,
    pub lamports: u64,
}

impl Config {
    /// At least one sender, and a positive amount.
    pub open spec fn wf(&self) -> bool {
        self.sender@.len() > 0 && self.lamports > 0
    }

    /// Checks and builds a configuration; the lists are kept as given.
    pub fn new(sender: Vec<String>, to: Vec<String>, lamports: u64) -> (r: Result<Config, ConfigError>)
        ensures
            sender@.len() == 0 ==> r == Err::<Config, ConfigError>(ConfigError::NoSenders),
            sender@.len() > 0 && lamports == 0 ==> r == Err::<Config, ConfigError>(
                ConfigError::ZeroAmount,
            ),
            sender@.len() > 0 && lamports > 0 ==> r is Ok,
            r matches Ok(c) ==> c.wf() && c.sender@ == sender@ && c.to@ == to@ && c.lamports
                == lamports,
    {
        if sender.len() == 0 {
            return Err(ConfigError::NoSenders);
        }
        if lamports == 0 {
            return Err(ConfigError::ZeroAmount);
        }
        Ok(Config { sender, to, lamports })
    }
}

} // verus!
