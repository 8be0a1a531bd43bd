//! The closed set of outcomes a status query can surface, and the total
//! decoding of the service's reply byte into it.

use vstd::prelude::*;

verus! {

/// Outcome of asking the remote service whether its input-remapping patch was
/// located and applied. The first four variants are sent by the service as the
/// bytes 0 to 3. `NotConnected` and `NotPresentOnSD` are raised locally before
/// any call is attempted and never come over the wire. Every reply byte from 4
/// up is kept as `Unknown`, so a newer service cannot make decoding fail.
#[derive(Clone, Copy, Debug, PartialEq, Eq, Structural)]
pub enum Status {
    Success,
    NoRecenterFound,
    NoMapSticks1Found,
    NoMapSticks2Found,
    NotConnected,
    NotPresentOnSD,
    Unknown(u8),
}

/// What each reply byte decodes to. Total: every byte maps to exactly one
/// variant.
pub open spec fn status_of_byte(b: u8) -> Status {
    if b == 0 {
        Status::Success
    } else if b == 1 {
        Status::NoRecenterFound
    } else if b == 2 {
        Status::NoMapSticks1Found
    } else if b == 3 {
        Status::NoMapSticks2Found
    } else {
        Status::Unknown(b)
    }
}

impl vstd::std_specs::convert::FromSpecImpl<u8> for Status {
    open spec fn obeys_from_spec() -> bool {
        true
    }

    open spec fn from_spec(v: u8) -> Status {
        status_of_byte(v)
    }
}

impl From<u8> for Status {
    fn from(value: u8) -> Self {
        match value {
            0 => Self::Success,
            1 => Self::NoRecenterFound,
            2 => Self::NoMapSticks1Found,
            3 => Self::NoMapSticks2Found,
            other => Self::Unknown(other),
        }
    }
}

/// Decoding a reply byte is total and never fails: the bytes 0 to 3 map to the
/// four service-defined outcomes in order, and every byte from 4 up maps to
/// `Unknown` carrying that byte.
pub proof fn lemma_status_decoding_total(b: u8)
    ensures
        b == 0 ==> status_of_byte(b) == Status::Success,
        b == 1 ==> status_of_byte(b) == Status::NoRecenterFound,
        b == 2 ==> status_of_byte(b) == Status::NoMapSticks1Found,
        b == 3 ==> status_of_byte(b) == Status::NoMapSticks2Found,
        b >= 4 ==> status_of_byte(b) == Status::Unknown(b),
{
}

} // verus!
