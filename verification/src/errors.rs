use vstd::prelude::*;

verus! {

/// Every way in which a request can be turned down. A request that is turned
/// down changes nothing.
#[derive(Clone, Copy, Debug, PartialEq, Eq, Structural)]
pub enum CensusError {
    /// The proof bytes are too short to hold the three group elements.
    InvalidProof,
    /// The proof is well formed but the pairing equation does not hold.
    ProofVerificationFailed,
    /// The nullifier was already claimed in this census.
    DuplicateNullifier,
    /// The census was closed.
    CensusInactive,
    /// The age bracket is not one of the seven brackets.
    InvalidAgeRange,
    /// The continent code is not one of the seven continents.
    InvalidContinent,
    /// The census asks for adults and the bracket is the one under 18.
    AgeRequirementNotMet,
    /// The census identifier is longer than 32 bytes.
    CensusIdTooLong,
    /// The name is longer than 64 bytes.
    NameTooLong,
    /// The description is longer than 256 bytes.
    DescriptionTooLong,
    /// The content pointer is longer than 64 bytes.
    IpfsHashTooLong,
    /// The caller is not the creator of the census.
    Unauthorized,
    /// The submitted timestamp is too far from the trusted clock.
    InvalidTimestamp,
    /// The membership anchor could not be replaced.
    MerkleRootUpdateFailed,
    /// A counter is at the top of its range.
    ArithmeticOverflow,
}

impl CensusError {
    /// The sentence shown to a caller for each kind of failure.
    pub open spec fn text(self) -> Seq<char> {
        match self {
            CensusError::InvalidProof => "Invalid proof data"@,
            CensusError::ProofVerificationFailed => "Proof verification failed"@,
            CensusError::DuplicateNullifier => "Duplicate nullifier - already registered"@,
            CensusError::CensusInactive => "Census is not active"@,
            CensusError::InvalidAgeRange => "Invalid age range"@,
            CensusError::InvalidContinent => "Invalid continent code"@,
            CensusError::AgeRequirementNotMet => "Age requirement not met"@,
            CensusError::CensusIdTooLong => "Census ID too long (max 32 characters)"@,
            CensusError::NameTooLong => "Name too long (max 64 characters)"@,
            CensusError::DescriptionTooLong => "Description too long (max 256 characters)"@,
            CensusError::IpfsHashTooLong => "IPFS hash too long (max 64 characters)"@,
            CensusError::Unauthorized => "Unauthorized - only creator can perform this action"@,
            CensusError::InvalidTimestamp => "Timestamp too old or in future"@,
            CensusError::MerkleRootUpdateFailed => "Merkle root update failed"@,
            CensusError::ArithmeticOverflow => "Arithmetic overflow"@,
        }
    }

    /// The sentence for this failure.
    pub fn message(&self) -> (sentence: &'static str)
        ensures
            sentence@ == self.text(),
    {
        match self {
            CensusError::InvalidProof => "Invalid proof data",
            CensusError::ProofVerificationFailed => "Proof verification failed",
            CensusError::DuplicateNullifier => "Duplicate nullifier - already registered",
            CensusError::CensusInactive => "Census is not active",
            CensusError::InvalidAgeRange => "Invalid age range",
            CensusError::InvalidContinent => "Invalid continent code",
            CensusError::AgeRequirementNotMet => "Age requirement not met",
            CensusError::CensusIdTooLong => "Census ID too long (max 32 characters)",
            CensusError::NameTooLong => "Name too long (max 64 characters)",
            CensusError::DescriptionTooLong => "Description too long (max 256 characters)",
            CensusError::IpfsHashTooLong => "IPFS hash too long (max 64 characters)",
            CensusError::Unauthorized => "Unauthorized - only creator can perform this action",
            CensusError::InvalidTimestamp => "Timestamp too old or in future",
            CensusError::MerkleRootUpdateFailed => "Merkle root update failed",
            CensusError::ArithmeticOverflow => "Arithmetic overflow",
        }
    }
}

} // verus!
