//! One-shot HTTP request proxying: a request description is validated and
//! normalized into a plan, and a raw network exchange is rendered as a
//! structured response.
//!
//! The network transfer itself is left to the caller; everything on either
//! side of it — recognising the method, dropping a blank body, carrying the
//! headers through, classifying the status code, decoding header values and
//! shaping the error strings — lives here.

pub mod method;
pub mod proxy;
pub mod status;
pub mod text;
