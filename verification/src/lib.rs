//! Start-up support for a mix-network service provider: the rule that settles
//! which addresses the provider listens on and announces once command-line
//! overrides have been laid over a loaded configuration, together with the
//! small account records shared with wallet front ends.

pub mod account;
pub mod commands;
pub mod config;
pub mod currency;
pub mod delegations;
pub mod laws;
pub mod overrides;
pub mod port;
pub mod resolver;
