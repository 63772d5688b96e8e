//! The receipt chain: the attestation of one move is passed as a required
//! precondition of the next move's session, so that the final attestation
//! carries transitive soundness over the whole move history.

use vstd::prelude::*;

use crate::attest::{receipt_verifies, receipt_verify};
use crate::game::ChessMove;

verus! {

/// What one move's session is submitted with: the signed envelope and the
/// attestations the collaborator must hold as preconditions.
pub struct SubmissionBundle {
    pub envelope: ChessMove,
    pub preconditions: Vec<Vec<u8>>,
}

/// Thread a prior attestation into the next move's submission: the
/// preconditions are exactly the prior attestation when there is one, and
/// empty for the first move of a match.
pub fn extend(prior_attestation: Option<Vec<u8>>, next_envelope: ChessMove) -> (b: SubmissionBundle)
    ensures
        b.envelope == next_envelope,
        prior_attestation matches Some(prior) ==> b.preconditions@.len() == 1
            && b.preconditions@[0]@ == prior@,
        prior_attestation is None ==> b.preconditions@.len() == 0,
{
    let preconditions = match prior_attestation {
        Some(prior) => {
            let mut list: Vec<Vec<u8>> = Vec::new();
            list.push(prior);
            list
        },
        None => Vec::new(),
    };
    SubmissionBundle { envelope: next_envelope, preconditions }
}

/// The precondition identifiers to name when creating the next session:
/// exactly the uploaded prior attestation's identifier when there is one.
pub fn chain_preconditions(prior_id: Option<String>) -> (r: Vec<String>)
    ensures
        prior_id matches Some(id) ==> r@.len() == 1 && r@[0]@ == id@,
        prior_id is None ==> r@.len() == 0,
{
    match prior_id {
        Some(id) => {
            let mut list: Vec<String> = Vec::new();
            list.push(id);
            list
        },
        None => Vec::new(),
    }
}

/// Whether a completed chain's final attestation is sound: it re-verifies
/// against the expected program identity.  The collaborator only accepts a
/// session whose preconditions verify, so a final attestation that passes
/// this check covers every move of the chain.
pub fn verify_chain(final_attestation: &[u8], expected_image_id: &[u8; 32]) -> (r: bool)
    ensures
        r == receipt_verifies(final_attestation@, expected_image_id@),
{
    receipt_verify(final_attestation, expected_image_id)
}

} // verus!
