//! A local certificate authority: root generation, leaf issuance and the
//! file layout of persisted identities, with the decisions that shape each
//! certificate stated and proved over plain-value templates.

pub mod authority;
pub mod cli;
pub mod config;
pub mod error;
pub mod template;
pub mod x509;
