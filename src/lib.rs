//! A custodial tip vault: one vault per owner, deposits from anyone,
//! withdrawals by the owner alone.

pub mod error;
pub mod laws;
pub mod pubkey;
pub mod vault;

pub use error::TipJarError;
pub use pubkey::Pubkey;
pub use vault::{init_vault, send_tip, withdraw, InitVault, SendTip, TipVault, VaultAccount, Withdraw};
