//! Digital-signature verification (CMS/CAdES, p7s) on top of UAPKI's direct
//! C interface: the decisions around the calls, verified.
//!
//! The library holds what the wrapper decides: the wire codes of the
//! validation levels and verdicts, how the three numbers a verification
//! returns become an outcome, which configuration a call to `init` hands the
//! C side and in what order, and the checks that stand in front of the calls.
//! The calls themselves (foreign functions) are made by the surrounding
//! program, which feeds their return values back into these functions.

pub mod calls;
pub mod der_list;
pub mod outcome;
pub mod types;

pub use outcome::interpret;
pub use types::{Error, Network, Validation, Verdict, Verified};
