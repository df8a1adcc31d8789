use vstd::prelude::*;

verus! {

/// How much of an envelope a verification checks; each level includes the
/// checks of those before it.
#[derive(Debug, Clone, Copy, PartialEq, Eq, Structural)]
pub enum Validation {
    /// Cryptographic signature and CMS structure check only.
    Struct,
    /// Plus the timestamps and references the envelope carries. Builds no chain,
    /// so it accepts without the signer's CA, but a timestamp is signed too, and
    /// verifying it needs the TSA's certificate.
    Envelope,
    /// Plus building and checking the chain to trusted CAs (offline).
    Chain,
    /// Plus revocation status (OCSP/CRL); needs an online `Network`.
    Full,
}

/// The number the C interface takes for each level: its place in the order
/// `Struct < Envelope < Chain < Full`.
pub open spec fn validation_code(v: Validation) -> int {
    match v {
        Validation::Struct => 0,
        Validation::Envelope => 1,
        Validation::Chain => 2,
        Validation::Full => 3,
    }
}

impl Validation {
    /// The level's wire code (`validation_type` of the C interface).
    pub fn to_code(self) -> (code: i32)
        ensures
            code == validation_code(self),
    {
        match self {
            Validation::Struct => 0,
            Validation::Envelope => 1,
            Validation::Chain => 2,
            Validation::Full => 3,
        }
    }
}

/// The wire codes keep the levels apart and in their order: a level that
/// checks more has the larger code.
pub proof fn lemma_level_codes_ordered(a: Validation, b: Validation)
    ensures
        a != b ==> validation_code(a) != validation_code(b),
        0 <= validation_code(a) <= 3,
        validation_code(Validation::Struct) < validation_code(Validation::Envelope)
            < validation_code(Validation::Chain) < validation_code(Validation::Full),
{
}

/// What the C interface reports of the signers once a verification ran.
/// Its codes are the other half of the wire contract `Validation::to_code`
/// starts; a code it does not know counts as a failure.
#[derive(Debug, Clone, Copy, PartialEq, Eq, Structural)]
pub enum Verdict {
    Failed,
    Valid,
    Indeterminate,
}

/// The verdict a wire code stands for: `1` valid, `2` indeterminate, and
/// anything else (`0` among them) failed.
pub open spec fn verdict_of(code: int) -> Verdict {
    if code == 1 {
        Verdict::Valid
    } else if code == 2 {
        Verdict::Indeterminate
    } else {
        Verdict::Failed
    }
}

impl Verdict {
    /// Reads the verdict's wire code; unknown codes fail closed.
    pub fn from_code(code: i32) -> (v: Verdict)
        ensures
            v == verdict_of(code as int),
    {
        match code {
            1 => Verdict::Valid,
            2 => Verdict::Indeterminate,
            _ => Verdict::Failed,
        }
    }
}

/// Why a call did not succeed.
#[derive(Debug, Clone, PartialEq, Eq, Structural)]
pub enum Error {
    /// UAPKI error code from adding trusted certificates.
    AddTrusted(i32),
    /// UAPKI error code raised during verification.
    Verify(i32),
    /// Signature is invalid (not all signers verified).
    Invalid,
    /// Not enough evidence to decide: unreachable revocation data, or nothing
    /// placing the signature before a revocation. The caller's policy reads it.
    Indeterminate,
    /// A string handed to the C side holds a NUL byte (a data-file path, or a
    /// proxy's URL or credentials).
    BadPath,
    /// UAPKI error code from configuring the library or HTTP layer.
    Configure(i32),
}

/// A verification that succeeded.
#[derive(Debug, Clone, Copy, PartialEq, Eq, Structural)]
pub struct Verified {
    pub signer_count: u32,
}

/// How the library talks to the network while verifying.
#[derive(Debug, Clone, Copy, PartialEq, Eq)]
pub struct Network<'a> {
    /// Offline keeps the library off the network; online enables the OCSP/CRL
    /// fetching `Validation::Full` needs.
    pub offline: bool,
    /// Proxy URL and credentials.
    pub proxy: Option<(&'a str, &'a str)>,
    /// Milliseconds to reach the host; 0 keeps the current value. The C `int`
    /// type, so it is passed to the library without a lossy conversion.
    pub connect_timeout_ms: i32,
    /// Milliseconds for the whole exchange; 0 keeps the current value.
    pub total_timeout_ms: i32,
    /// Revocation status from CRLs alone, never OCSP.
    pub only_crl: bool,
}

impl<'a> Default for Network<'a> {
    /// Offline, no proxy, both timeouts kept as they are, OCSP allowed.
    fn default() -> (n: Self)
        ensures
            n.offline,
            n.proxy is None,
            n.connect_timeout_ms == 0,
            n.total_timeout_ms == 0,
            !n.only_crl,
    {
        Network {
            offline: true,
            proxy: None,
            connect_timeout_ms: 0,
            total_timeout_ms: 0,
            only_crl: false,
        }
    }
}

} // verus!
