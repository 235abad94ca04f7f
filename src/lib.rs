//! Transfer of a native asset amount between two accounts: key loading, the
//! balance rule, and the decisions of one transfer run, which a caller drives
//! by performing the network actions the run asks for.
pub mod address;
pub mod balance;
pub mod error;
pub mod keypair;
pub mod transaction;
pub mod transfer;
