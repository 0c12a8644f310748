//! Fixed-size byte identities with constant-time equality.
//!
//! Enclave and signer measurements and configuration ids are opaque
//! byte identities. Their equality is evaluated in constant time through
//! the `subtle` crate, so that the position of the first differing byte
//! cannot leak through timing. Measurements render as uppercase
//! hexadecimal grouped in two-byte chunks separated by underscores.

use vstd::prelude::*;

verus! {

/// The byte length of an enclave or signer measurement (`SGX_HASH_SIZE`).
pub const MEASUREMENT_SIZE: usize = 32;

/// The byte length of a configuration id (`SGX_CONFIGID_SIZE`).
pub const CONFIG_ID_SIZE: usize = 64;

/// The uppercase hexadecimal digit for a value below sixteen.
pub open spec fn hex_char(n: u8) -> char {
    if n == 0 {
        '0'
    } else if n == 1 {
        '1'
    } else if n == 2 {
        '2'
    } else if n == 3 {
        '3'
    } else if n == 4 {
        '4'
    } else if n == 5 {
        '5'
    } else if n == 6 {
        '6'
    } else if n == 7 {
        '7'
    } else if n == 8 {
        '8'
    } else if n == 9 {
        '9'
    } else if n == 10 {
        'A'
    } else if n == 11 {
        'B'
    } else if n == 12 {
        'C'
    } else if n == 13 {
        'D'
    } else if n == 14 {
        'E'
    } else {
        'F'
    }
}

/// The two uppercase hexadecimal digits of one byte.
pub open spec fn hex_pair(b: u8) -> Seq<char> {
    seq![hex_char(b / 16), hex_char(b % 16)]
}

/// The separator written before byte `i`: an underscore before every
/// even position after the first, so bytes group in two-byte chunks.
pub open spec fn hex_sep(i: int) -> Seq<char> {
    if i > 0 && i % 2 == 0 {
        seq!['_']
    } else {
        Seq::empty()
    }
}

/// The grouped hexadecimal rendering of the first `n` bytes.
pub open spec fn grouped_hex_prefix(bytes: Seq<u8>, n: int) -> Seq<char>
    decreases n,
{
    if n <= 0 {
        Seq::empty()
    } else {
        grouped_hex_prefix(bytes, n - 1) + hex_sep(n - 1) + hex_pair(bytes[n - 1])
    }
}

/// The grouped hexadecimal rendering of a byte sequence: two uppercase
/// digits per byte, an underscore between two-byte chunks.
pub open spec fn grouped_hex(bytes: Seq<u8>) -> Seq<char> {
    grouped_hex_prefix(bytes, bytes.len() as int)
}

/// The uppercase hexadecimal digit of a value below sixteen.
fn hex_digit(n: u8) -> (c: char)
    requires
        n < 16,
    ensures
        c == hex_char(n),
{
    if n == 0 {
        '0'
    } else if n == 1 {
        '1'
    } else if n == 2 {
        '2'
    } else if n == 3 {
        '3'
    } else if n == 4 {
        '4'
    } else if n == 5 {
        '5'
    } else if n == 6 {
        '6'
    } else if n == 7 {
        '7'
    } else if n == 8 {
        '8'
    } else if n == 9 {
        '9'
    } else if n == 10 {
        'A'
    } else if n == 11 {
        'B'
    } else if n == 12 {
        'C'
    } else if n == 13 {
        'D'
    } else if n == 14 {
        'E'
    } else {
        'F'
    }
}

/// Relies on `String::push`: appends the one character to the string.
pub assume_specification[ String::push ](s: &mut String, ch: char)
    ensures
        final(s)@ == old(s)@.push(ch),
;

/// Appends the grouped hexadecimal rendering of `bytes` to `out`.
fn push_grouped_hex(out: &mut String, bytes: &[u8])
    ensures
        final(out)@ == old(out)@ + grouped_hex(bytes@),
{
    let n = bytes.len();
    let mut i: usize = 0;
    while i < n
        invariant
            n == bytes@.len(),
            i <= n,
            out@ == old(out)@ + grouped_hex_prefix(bytes@, i as int),
        decreases n - i,
    {
        if i > 0 && i % 2 == 0 {
            out.push('_');
        }
        let b = bytes[i];
        out.push(hex_digit(b / 16));
        out.push(hex_digit(b % 16));
        i = i + 1;
    }
}

/// Relies on `subtle::ConstantTimeEq` for `[u8]`: the result is true
/// exactly when the slices have the same length and the same contents.
/// The comparison visits every byte and combines the per-byte outcomes
/// without a data-dependent branch, so its latency does not depend on
/// the position of the first differing byte.
#[verifier::external_body]
fn ct_eq_slices(a: &[u8], b: &[u8]) -> (r: bool)
    ensures
        r <==> a@ == b@,
{
    bool::from(subtle::ConstantTimeEq::ct_eq(a, b))
}

/// True when every byte of the sequence is zero.
pub open spec fn all_zero(s: Seq<u8>) -> bool {
    forall|i: int| 0 <= i < s.len() ==> s[i] == 0u8
}

/// An opaque type for MRENCLAVE values.
///
/// A MRENCLAVE value is a chained cryptographic hash of the signed
/// enclave binary (.so), and the results of the page initialization
/// steps which created the enclave's pages.
#[derive(Clone, Debug, Eq, PartialEq)]
pub struct MrEnclave(pub [u8; 32]);

/// An opaque type for MRSIGNER values.
///
/// A MRSIGNER value is a cryptographic hash of the public key an enclave
/// was signed with.
#[derive(Clone, Debug, Eq, PartialEq)]
pub struct MrSigner(pub [u8; 32]);

/// An opaque type for configuration id values.
#[derive(Clone, Debug, Hash, Eq, PartialEq)]
pub struct ConfigId(pub [u8; 64]);

impl View for MrEnclave {
    type V = Seq<u8>;

    open spec fn view(&self) -> Seq<u8> {
        self.0@
    }
}

impl View for MrSigner {
    type V = Seq<u8>;

    open spec fn view(&self) -> Seq<u8> {
        self.0@
    }
}

impl View for ConfigId {
    type V = Seq<u8>;

    open spec fn view(&self) -> Seq<u8> {
        self.0@
    }
}

impl From<[u8; 32]> for MrEnclave {
    /// Wraps the raw measurement bytes, losslessly.
    fn from(bytes: [u8; 32]) -> (r: Self) {
        MrEnclave(bytes)
    }
}

impl vstd::std_specs::convert::FromSpecImpl<[u8; 32]> for MrEnclave {
    open spec fn obeys_from_spec() -> bool {
        true
    }

    open spec fn from_spec(bytes: [u8; 32]) -> Self {
        MrEnclave(bytes)
    }
}

impl From<[u8; 32]> for MrSigner {
    /// Wraps the raw measurement bytes, losslessly.
    fn from(bytes: [u8; 32]) -> (r: Self) {
        MrSigner(bytes)
    }
}

impl vstd::std_specs::convert::FromSpecImpl<[u8; 32]> for MrSigner {
    open spec fn obeys_from_spec() -> bool {
        true
    }

    open spec fn from_spec(bytes: [u8; 32]) -> Self {
        MrSigner(bytes)
    }
}

impl From<[u8; 64]> for ConfigId {
    /// Wraps the raw configuration id bytes, losslessly.
    fn from(bytes: [u8; 64]) -> (r: Self) {
        ConfigId(bytes)
    }
}

impl vstd::std_specs::convert::FromSpecImpl<[u8; 64]> for ConfigId {
    open spec fn obeys_from_spec() -> bool {
        true
    }

    open spec fn from_spec(bytes: [u8; 64]) -> Self {
        ConfigId(bytes)
    }
}

impl MrEnclave {
    /// The raw measurement bytes back out, losslessly.
    pub fn to_bytes(&self) -> (r: [u8; 32])
        ensures
            r == self.0,
    {
        self.0
    }

    /// Constant-time equality over the whole measurement.
    pub fn ct_eq(&self, other: &Self) -> (r: bool)
        ensures
            r <==> self@ == other@,
    {
        ct_eq_slices(self.0.as_slice(), other.0.as_slice())
    }

    /// Renders as `MrEnclave: ` followed by the grouped uppercase
    /// hexadecimal measurement.
    pub fn to_display_string(&self) -> (s: String)
        ensures
            s@ == "MrEnclave: "@ + grouped_hex(self@),
    {
        let mut s = "MrEnclave: ".to_owned();
        push_grouped_hex(&mut s, self.0.as_slice());
        s
    }
}

impl MrSigner {
    /// The raw measurement bytes back out, losslessly.
    pub fn to_bytes(&self) -> (r: [u8; 32])
        ensures
            r == self.0,
    {
        self.0
    }

    /// Constant-time equality over the whole measurement.
    pub fn ct_eq(&self, other: &Self) -> (r: bool)
        ensures
            r <==> self@ == other@,
    {
        ct_eq_slices(self.0.as_slice(), other.0.as_slice())
    }

    /// Renders as `MrSigner: ` followed by the grouped uppercase
    /// hexadecimal measurement.
    pub fn to_display_string(&self) -> (s: String)
        ensures
            s@ == "MrSigner: "@ + grouped_hex(self@),
    {
        let mut s = "MrSigner: ".to_owned();
        push_grouped_hex(&mut s, self.0.as_slice());
        s
    }
}

impl ConfigId {
    /// The raw configuration id bytes back out, losslessly.
    pub fn to_bytes(&self) -> (r: [u8; 64])
        ensures
            r == self.0,
    {
        self.0
    }

    /// Constant-time equality over the whole configuration id.
    pub fn ct_eq(&self, other: &Self) -> (r: bool)
        ensures
            r <==> self@ == other@,
    {
        ct_eq_slices(self.0.as_slice(), other.0.as_slice())
    }

    /// Renders as the grouped uppercase hexadecimal configuration id.
    pub fn to_display_string(&self) -> (s: String)
        ensures
            s@ == grouped_hex(self@),
    {
        let mut s = String::new();
        push_grouped_hex(&mut s, self.0.as_slice());
        s
    }
}

impl Default for MrEnclave {
    /// The all-zero measurement.
    fn default() -> (r: Self)
        ensures
            r@.len() == 32 && all_zero(r@),
    {
        MrEnclave([0u8; 32])
    }
}

impl Default for MrSigner {
    /// The all-zero measurement.
    fn default() -> (r: Self)
        ensures
            r@.len() == 32 && all_zero(r@),
    {
        MrSigner([0u8; 32])
    }
}

impl Default for ConfigId {
    /// The all-zero configuration id.
    fn default() -> (r: Self)
        ensures
            r@.len() == 64 && all_zero(r@),
    {
        ConfigId([0u8; 64])
    }
}

/// Round trip: unwrapping a measurement built from raw bytes yields
/// those bytes, for every byte array of the right length.
pub proof fn lemma_measurement_round_trip(bytes: [u8; 32])
    ensures
        MrEnclave(bytes)@ == bytes@,
        MrSigner(bytes)@ == bytes@,
{
}

/// Round trip: unwrapping a configuration id built from raw bytes
/// yields those bytes, for every byte array of the right length.
pub proof fn lemma_config_id_round_trip(bytes: [u8; 64])
    ensures
        ConfigId(bytes)@ == bytes@,
{
}

} // verus!
