//! Verified integer core of a fixed-size negacyclic transform bridge.
//!
//! The transform works on degree-1024 polynomials whose coefficients are
//! 32-bit wrapping integers ("torus" elements). The floating-point kernel
//! (twisting factors and the half-size complex transform) is numeric code
//! that cannot be verified here; everything around it — the signed
//! reinterpretation of torus coefficients, the modular wrap-back of rounded
//! results, the split-halves frequency layout, the exact-size checks, and
//! the batch chunking — is integer logic, and is verified in this crate.

pub mod batch;
pub mod centering;
pub mod poly;
