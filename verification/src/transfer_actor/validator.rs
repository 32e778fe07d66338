use vstd::prelude::*;

verus! {

/// The network's public key type (safe_nd), held opaquely.
#[verifier::external_type_specification]
#[verifier::external_body]
pub struct ExPublicKey(safe_nd::PublicKey);

/// Simple client side validations
#[derive(Clone, Debug, PartialEq, Eq, Structural)]
pub struct ClientTransferValidator {}

impl ClientTransferValidator {
    /// The client accepts every replica group: it does no validation of its own.
    pub fn is_valid(&self, replica_group: safe_nd::PublicKey) -> (valid: bool)
        ensures
            valid,
    {
        true
    }
}

} // verus!
