//! Opaque handle types of the host's foreign interface. The host passes
//! values of these only by pointer; the library never reads one, so each is
//! a zero-sized marker.

use vstd::prelude::*;

verus! {

/// Marker for the host environment handle of a foreign call.
pub struct JNIEnv {
    _private: [u8; 0],
}

/// Marker for the host class handle of a foreign call.
pub struct JClass {
    _private: [u8; 0],
}

/// Marker for a host string handle.
pub struct JString {
    _private: [u8; 0],
}

/// Marker for a host object handle, such as a log callback.
pub struct JObject {
    _private: [u8; 0],
}

} // verus!
