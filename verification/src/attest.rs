//! Attestations: the opaque artifacts the proving collaborator hands back.
//! An attestation is carried as its serialized bytes; decoding it and
//! re-verifying it against the program identity are risc0's, behind trusted
//! wrappers whose contracts speak of the bytes alone.

use vstd::prelude::*;

verus! {

/// Whether the bytes decode into a receipt at all.
pub uninterp spec fn receipt_decodes(bytes: Seq<u8>) -> bool;

/// The public journal the decoded receipt carries: the attested program's
/// committed output.
pub uninterp spec fn journal_of(bytes: Seq<u8>) -> Seq<u8>;

/// Whether the decoded receipt cryptographically verifies against the given
/// program identity.
pub uninterp spec fn receipt_verifies(bytes: Seq<u8>, image_id: Seq<u8>) -> bool;

/// Relies on bincode::deserialize::<risc0_zkvm::Receipt> and the receipt's
/// public `journal` field: both functions of the bytes alone.
#[verifier::external_body]
pub(crate) fn decode_journal(bytes: &[u8]) -> (r: Option<Vec<u8>>)
    ensures
        r is Some <==> receipt_decodes(bytes@),
        r matches Some(journal) ==> journal@ == journal_of(bytes@),
{
    match bincode::deserialize::<risc0_zkvm::Receipt>(bytes) {
        Ok(receipt) => Some(receipt.journal.bytes),
        Err(_) => None,
    }
}

/// Relies on bincode::deserialize::<risc0_zkvm::Receipt> and
/// risc0_zkvm::Receipt::verify_with_context, with dev mode switched off so
/// that a mock proof never passes: deterministic in the serialized receipt
/// and the program identity; bytes that do not decode never verify.
#[verifier::external_body]
pub(crate) fn receipt_verify(bytes: &[u8], image_id: &[u8; 32]) -> (r: bool)
    ensures
        r == receipt_verifies(bytes@, image_id@),
        r ==> receipt_decodes(bytes@),
{
    match bincode::deserialize::<risc0_zkvm::Receipt>(bytes) {
        Ok(receipt) => {
            let ctx = risc0_zkvm::VerifierContext::default().with_dev_mode(false);
            receipt.verify_with_context(&ctx, *image_id).is_ok()
        },
        Err(_) => false,
    }
}

} // verus!
