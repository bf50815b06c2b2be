//! Client-side logic for a quantum random number generator web service:
//! bounded request parameters, request URL formatting, and validation and
//! typed decoding of the service's JSON responses.

pub mod decode;
pub mod json;
pub mod params;
pub mod request;
