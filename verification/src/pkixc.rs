//! What goes into and comes out of the check of a chain of code-signing
//! certificates. The check itself is done by the platform's verifier.

use vstd::prelude::*;

verus! {

/// The error code of the platform's verifier.
pub type PRErrorCode = i32;

/// Why a chain was not accepted.
#[derive(Debug, Clone, PartialEq, Eq)]
pub enum ErrorKind {
    /// The verifier refused the chain, with this code.
    NSSError(PRErrorCode, String),
}

/// The length of a certificate as the verifier takes it: in 16 bits, what
/// goes beyond them being cut off.
pub open spec fn length_for_verifier(len: nat) -> u16 {
    (len % 0x1_0000) as u16
}

/// The lengths of `certificates`, in their order, as the verifier takes
/// them.
pub fn certificate_lengths(certificates: &Vec<Vec<u8>>) -> (cert_lens: Vec<u16>)
    ensures
        cert_lens@.len() == certificates@.len(),
        forall|i: int|
            0 <= i < certificates@.len() ==> cert_lens@[i] == length_for_verifier(
                (#[trigger] certificates@[i])@.len(),
            ),
{
    let mut cert_lens: Vec<u16> = Vec::new();
    let mut k: usize = 0;
    while k < certificates.len()
        invariant
            k <= certificates@.len(),
            cert_lens@.len() == k,
            forall|i: int|
                0 <= i < k ==> cert_lens@[i] == length_for_verifier(
                    (#[trigger] certificates@[i])@.len(),
                ),
        decreases certificates@.len() - k,
    {
        cert_lens.push((certificates[k].len() % 0x1_0000) as u16);
        k = k + 1;
    }
    cert_lens
}

/// What the answer of the verifier means: success, or a failure that holds
/// the code which the verifier set.
pub fn verification_result(result: bool, out: PRErrorCode) -> (r: Result<(), ErrorKind>)
    ensures
        r is Ok <==> result,
        r matches Err(ErrorKind::NSSError(code, message)) ==> code == out && message@
            == "invalid chain of trust"@,
{
    if !result {
        return Err(ErrorKind::NSSError(out, "invalid chain of trust".to_owned()));
    }
    Ok(())
}

} // verus!
