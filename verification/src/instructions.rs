//! The five requests that a census answers.

pub mod close_census;
pub mod get_stats;
pub mod initialize_census;
pub mod submit_proof;
pub mod update_merkle_root;

pub use close_census::CloseCensus;
pub use get_stats::GetStats;
pub use initialize_census::InitializeCensus;
pub use submit_proof::SubmitProof;
pub use update_merkle_root::UpdateMerkleRoot;
