//! Adjudication of a quote-verification outcome.
//!
//! A call to the external quote verifier produces three independent
//! signals: the return value of the call itself (a `quote3_error_t`
//! code), a verification-status code (a `sgx_ql_qv_result_t` code) and a
//! collateral expiration flag. This module combines the three, in a fixed
//! precedence order, into a single outcome.
//!
//! The codes travel here as plain `u32` values, exactly as the SGX SDK
//! defines them; the constants below name the ones this module
//! distinguishes.

use vstd::prelude::*;

verus! {

/// `quote3_error_t`: the verification call itself succeeded.
pub const QL_SUCCESS: u32 = 0;

/// `quote3_error_t`: an unexpected internal error.
pub const QL_ERROR_UNEXPECTED: u32 = 0xE001;

/// `quote3_error_t`: the platform library could not access a file.
pub const QL_FILE_ACCESS_ERROR: u32 = 0xE006;

/// `quote3_error_t`: the verifier was handed an invalid report.
pub const QL_INVALID_REPORT: u32 = 0xE015;

/// `quote3_error_t`: the evidence is not in a format the verifier supports.
pub const QL_QUOTE_FORMAT_UNSUPPORTED: u32 = 0xE01D;

/// `sgx_ql_qv_result_t`: the quote verified cleanly.
pub const QV_RESULT_OK: u32 = 0;

/// `sgx_ql_qv_result_t` advisory: the platform needs configuration.
pub const QV_RESULT_CONFIG_NEEDED: u32 = 0xA001;

/// `sgx_ql_qv_result_t` advisory: the platform's TCB is out of date.
pub const QV_RESULT_OUT_OF_DATE: u32 = 0xA002;

/// `sgx_ql_qv_result_t` advisory: out of date and configuration needed.
pub const QV_RESULT_OUT_OF_DATE_CONFIG_NEEDED: u32 = 0xA003;

/// `sgx_ql_qv_result_t` terminal: the quote's signature is invalid.
pub const QV_RESULT_INVALID_SIGNATURE: u32 = 0xA004;

/// `sgx_ql_qv_result_t` terminal: the attestation key has been revoked.
pub const QV_RESULT_REVOKED: u32 = 0xA005;

/// `sgx_ql_qv_result_t` terminal: the verification outcome is unspecified.
pub const QV_RESULT_UNSPECIFIED: u32 = 0xA006;

/// `sgx_ql_qv_result_t` advisory: the enclave needs software hardening.
pub const QV_RESULT_SW_HARDENING_NEEDED: u32 = 0xA007;

/// `sgx_ql_qv_result_t` advisory: configuration and hardening needed.
pub const QV_RESULT_CONFIG_AND_SW_HARDENING_NEEDED: u32 = 0xA008;

/// The class of a verification-status code.
///
/// Terminal codes mean the evidence must not be trusted; non-terminal
/// (advisory) codes mean the evidence is valid but a supporting condition
/// should be reviewed by policy before trusting it.
#[derive(Clone, Copy, Debug, PartialEq, Eq)]
pub enum QuoteVerificationResult {
    /// The quote verified cleanly.
    Success,
    /// A terminal code: the evidence must not be trusted.
    Terminal(u32),
    /// An advisory code, to be surfaced to the policy layer.
    NonTerminal(u32),
}

/// Every failing adjudication outcome, as data.
#[derive(Clone, Copy, Debug, PartialEq, Eq)]
pub enum Error {
    /// The verification call failed, or the status code was terminal;
    /// carries the failing code.
    SgxStatus(u32),
    /// The status code was advisory; carries that code.
    NonTerminal(u32),
    /// The call succeeded and the quote verified, but the collateral used
    /// to verify it has expired.
    CollateralExpired,
}

/// The five advisory (non-terminal) verification-status codes.
pub open spec fn is_advisory(code: u32) -> bool {
    ||| code == QV_RESULT_CONFIG_NEEDED
    ||| code == QV_RESULT_OUT_OF_DATE
    ||| code == QV_RESULT_OUT_OF_DATE_CONFIG_NEEDED
    ||| code == QV_RESULT_SW_HARDENING_NEEDED
    ||| code == QV_RESULT_CONFIG_AND_SW_HARDENING_NEEDED
}

/// The class of each verification-status code: [`QV_RESULT_OK`] is a
/// success, the five advisory codes are non-terminal, and every other
/// code, known or not, is terminal (fail-closed).
pub open spec fn spec_classify(code: u32) -> QuoteVerificationResult {
    if code == QV_RESULT_OK {
        QuoteVerificationResult::Success
    } else if is_advisory(code) {
        QuoteVerificationResult::NonTerminal(code)
    } else {
        QuoteVerificationResult::Terminal(code)
    }
}

/// Partitions a verification-status code into its class.
///
/// Total over all `u32` values: a code this library does not recognize is
/// classified terminal, never success or advisory by omission.
pub fn classify(code: u32) -> (r: QuoteVerificationResult)
    ensures
        r == spec_classify(code),
{
    if code == QV_RESULT_OK {
        QuoteVerificationResult::Success
    } else if code == QV_RESULT_CONFIG_NEEDED || code == QV_RESULT_OUT_OF_DATE
        || code == QV_RESULT_OUT_OF_DATE_CONFIG_NEEDED || code == QV_RESULT_SW_HARDENING_NEEDED
        || code == QV_RESULT_CONFIG_AND_SW_HARDENING_NEEDED {
        QuoteVerificationResult::NonTerminal(code)
    } else {
        QuoteVerificationResult::Terminal(code)
    }
}

/// The verdict over the three signals, in the fixed precedence order:
/// a failing call dominates everything; then a terminal code is reported
/// as a call failure and an advisory code is surfaced as non-terminal,
/// either way ignoring the expiration flag; the flag is consulted only
/// when the code classified as a success.
pub open spec fn spec_adjudicate(
    call_result: u32,
    quote_verification_result: u32,
    expiration_status: u32,
) -> Result<(), Error> {
    if call_result != QL_SUCCESS {
        Err(Error::SgxStatus(call_result))
    } else {
        match spec_classify(quote_verification_result) {
            QuoteVerificationResult::Success => if expiration_status == 0 {
                Ok(())
            } else {
                Err(Error::CollateralExpired)
            },
            QuoteVerificationResult::Terminal(code) => Err(Error::SgxStatus(code)),
            QuoteVerificationResult::NonTerminal(code) => Err(Error::NonTerminal(code)),
        }
    }
}

/// Attestation evidence: raw quote bytes, opaque to this crate. Format
/// correctness is the external verifier's responsibility.
pub struct Quote {
    /// The raw evidence bytes.
    pub quote: Vec<u8>,
}

impl View for Quote {
    type V = Seq<u8>;

    open spec fn view(&self) -> Seq<u8> {
        self.quote@
    }
}

impl Quote {
    /// Wraps raw evidence bytes.
    pub fn new(quote: Vec<u8>) -> (r: Self)
        ensures
            r@ == quote@,
    {
        Quote { quote }
    }

    /// The raw evidence bytes, as handed to the external verifier.
    pub fn as_bytes(&self) -> (r: &[u8])
        ensures
            r@ == self@,
    {
        self.quote.as_slice()
    }

    /// Consolidates the three `sgx_qv_verify_quote()` outputs into one
    /// verdict.
    ///
    /// # Arguments
    /// - `call_result` - the return value of the call itself.
    /// - `quote_verification_result` - the verification-status output.
    /// - `expiration_status` - the collateral expiration flag output;
    ///   zero means the collateral was still current.
    pub fn map_verify_quote_result(
        call_result: u32,
        quote_verification_result: u32,
        expiration_status: u32,
    ) -> (r: Result<(), Error>)
        ensures
            r == spec_adjudicate(call_result, quote_verification_result, expiration_status),
    {
        if call_result != QL_SUCCESS {
            Err(Error::SgxStatus(call_result))
        } else {
            match classify(quote_verification_result) {
                QuoteVerificationResult::Success => if expiration_status == 0 {
                    Ok(())
                } else {
                    Err(Error::CollateralExpired)
                },
                QuoteVerificationResult::Terminal(code) => Err(Error::SgxStatus(code)),
                QuoteVerificationResult::NonTerminal(code) => Err(Error::NonTerminal(code)),
            }
        }
    }
}

/// Implemented by evidence carriers that can reach an external verifier.
///
/// An implementation hands the evidence and the current wall-clock time
/// to the verifier and adjudicates the three signals it returns, e.g.
/// with [`Quote::map_verify_quote_result`].
pub trait Verify {
    /// Verifies the attestation evidence.
    fn verify(&self) -> Result<(), Error>;
}

/// Classification is total and deterministic: `QV_RESULT_OK` is the one
/// success, each of the five advisory codes is non-terminal and carries
/// its code, and every other code is terminal and carries its code.
pub proof fn lemma_classify_partition(code: u32)
    ensures
        code == QV_RESULT_OK ==> spec_classify(code) == QuoteVerificationResult::Success,
        is_advisory(code) ==> spec_classify(code) == QuoteVerificationResult::NonTerminal(code),
        code != QV_RESULT_OK && !is_advisory(code) ==> spec_classify(code)
            == QuoteVerificationResult::Terminal(code),
{
}

/// A failing call dominates: whatever the other two signals hold, the
/// verdict reports the failing call status, and nothing else is read.
pub proof fn lemma_call_failure_dominates(
    call_result: u32,
    quote_verification_result: u32,
    expiration_status: u32,
)
    requires
        call_result != QL_SUCCESS,
    ensures
        spec_adjudicate(call_result, quote_verification_result, expiration_status)
            == Result::<(), Error>::Err(Error::SgxStatus(call_result)),
{
}

/// On a successful call with a cleanly verified quote, the expiration
/// flag alone decides: zero yields the one success verdict, any positive
/// value yields `CollateralExpired`.
pub proof fn lemma_expiration_decides_on_success(expiration_status: u32)
    ensures
        expiration_status == 0 ==> spec_adjudicate(QL_SUCCESS, QV_RESULT_OK, expiration_status)
            == Result::<(), Error>::Ok(()),
        expiration_status > 0 ==> spec_adjudicate(QL_SUCCESS, QV_RESULT_OK, expiration_status)
            == Result::<(), Error>::Err(Error::CollateralExpired),
{
}

/// An advisory status dominates the expiration flag: on a successful call
/// it is surfaced as non-terminal for every value of the flag.
pub proof fn lemma_advisory_ignores_expiration(
    quote_verification_result: u32,
    expiration_status: u32,
)
    requires
        is_advisory(quote_verification_result),
    ensures
        spec_adjudicate(QL_SUCCESS, quote_verification_result, expiration_status)
            == Result::<(), Error>::Err(Error::NonTerminal(quote_verification_result)),
{
}

/// A terminal status is fatal for every value of the expiration flag, and
/// is reported through the same channel as a call failure.
pub proof fn lemma_terminal_ignores_expiration(
    quote_verification_result: u32,
    expiration_status: u32,
)
    requires
        quote_verification_result != QV_RESULT_OK,
        !is_advisory(quote_verification_result),
    ensures
        spec_adjudicate(QL_SUCCESS, quote_verification_result, expiration_status)
            == Result::<(), Error>::Err(Error::SgxStatus(quote_verification_result)),
{
}

/// The verdict is the success verdict exactly when the call succeeded,
/// the quote verified cleanly and the collateral had not expired.
pub proof fn lemma_ok_iff(call_result: u32, quote_verification_result: u32, expiration_status: u32)
    ensures
        spec_adjudicate(call_result, quote_verification_result, expiration_status)
            == Result::<(), Error>::Ok(()) <==> (call_result == QL_SUCCESS
            && quote_verification_result == QV_RESULT_OK && expiration_status == 0),
{
}

} // verus!
