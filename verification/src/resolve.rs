//! Backend address resolution: the backend specifier is resolved once, at
//! startup, and the first result of the resolution sequence is selected.

use vstd::prelude::*;

verus! {

/// An IP address, held as plain values: four octets, or eight 16-bit groups.
#[derive(Clone, Copy, PartialEq, Eq, Structural, Debug)]
pub enum BackendIp {
    V4(u8, u8, u8, u8),
    V6(u16, u16, u16, u16, u16, u16, u16, u16),
}

/// One concrete network endpoint for the backend: an IP address and a port.
#[derive(Clone, Copy, PartialEq, Eq, Structural, Debug)]
pub struct BackendAddr {
    pub ip: BackendIp,
    pub port: u16,
}

/// Why backend resolution failed fatally.
#[derive(Clone, Copy, PartialEq, Eq, Structural, Debug)]
pub enum ResolveError {
    /// The lookup succeeded but returned zero addresses.
    NoAddresses,
}

/// Selects the backend endpoint from the addresses a lookup returned: the
/// first result, deterministically; an empty result set is a fatal error.
pub fn select_backend(results: &Vec<BackendAddr>) -> (r: Result<BackendAddr, ResolveError>)
    ensures
        results@.len() > 0 ==> (r matches Ok(a) && a == results@[0]),
        results@.len() == 0 ==> (r matches Err(e) && e == ResolveError::NoAddresses),
{
    if results.len() > 0 {
        Ok(results[0])
    } else {
        Err(ResolveError::NoAddresses)
    }
}

} // verus!
