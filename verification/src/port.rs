//! Port allocator: monotonic probing upwards from a preferred port.

use vstd::prelude::*;

verus! {

/// Port at which probing starts when the operator states no preference.
pub const DEFAULT_PORT: u16 = 8000;

/// Why no port could be allocated.
#[derive(Debug, Clone, Copy, PartialEq, Eq, Structural)]
pub enum AllocationError {
    /// Every port from the preference up to the largest one was taken.
    Exhausted,
}

impl AllocationError {
    /// Text shown to the operator.
    pub fn message(&self) -> (text: String)
        ensures
            text@ == "Failed to find free port"@,
    {
        "Failed to find free port".to_owned()
    }
}

/// What the allocator does after one bind attempt.
#[derive(Debug, Clone, Copy, PartialEq, Eq, Structural)]
pub enum Probe {
    /// The attempt succeeded: this port is the allocation.
    Allocated(u16),
    /// The attempt failed: this port is tried next.
    Retry(u16),
    /// The attempt failed on the largest port: allocation fails.
    Exhausted,
}

/// The decision taken after a bind attempt on `port` that succeeded or not.
pub open spec fn after_attempt(port: u16, bound: bool) -> Probe {
    if bound {
        Probe::Allocated(port)
    } else if port < u16::MAX {
        Probe::Retry((port + 1) as u16)
    } else {
        Probe::Exhausted
    }
}

/// Decides the next move of the allocator from the outcome of one bind
/// attempt.
pub fn next_probe(port: u16, bound: bool) -> (probe: Probe)
    ensures
        probe == after_attempt(port, bound),
{
    if bound {
        Probe::Allocated(port)
    } else {
        match port.checked_add(1) {
            Some(next) => Probe::Retry(next),
            None => Probe::Exhausted,
        }
    }
}

/// `is_free` can answer nothing but "free" for `port`.
pub open spec fn surely_free<F: Fn(u16) -> bool>(is_free: F, port: u16) -> bool {
    forall|answer: bool| call_ensures(is_free, (port,), answer) ==> answer
}

/// `result` is what probing upwards from `preferred` comes to, given the
/// answers that `is_free` gave: the preference itself where it was free,
/// else the smallest port above it that was; and a failure only where no
/// port from the preference to the largest one was free.
pub open spec fn allocated<F: Fn(u16) -> bool>(
    is_free: F,
    preferred: u16,
    result: Result<u16, AllocationError>,
) -> bool {
    match result {
        Ok(port) => {
            &&& preferred <= port
            &&& call_ensures(is_free, (port,), true)
            &&& forall|p: u16| preferred <= p < port ==> call_ensures(is_free, (p,), false)
        },
        Err(e) => {
            &&& e == AllocationError::Exhausted
            &&& forall|p: u16| preferred <= p ==> call_ensures(is_free, (p,), false)
        },
    }
}

/// Finds the first bindable port at or above `preferred`.
///
/// `is_free` attempts to bind one port and releases it again; its answers
/// may depend on the machine, so the contract speaks of the answers it
/// gave.
pub fn allocate<F: Fn(u16) -> bool>(preferred: u16, is_free: F) -> (result: Result<
    u16,
    AllocationError,
>)
    requires
        forall|port: u16| call_requires(is_free, (port,)),
    ensures
        allocated(is_free, preferred, result),
        surely_free(is_free, preferred) ==> result == Ok::<u16, AllocationError>(preferred),
        (exists|p: u16| preferred <= p && surely_free(is_free, p)) ==> result is Ok,
{
    let mut port: u16 = preferred;
    loop
        invariant
            preferred <= port,
            forall|p: u16| call_requires(is_free, (p,)),
            forall|p: u16| preferred <= p < port ==> call_ensures(is_free, (p,), false),
        decreases u16::MAX - port,
    {
        let bound = is_free(port);
        match next_probe(port, bound) {
            Probe::Allocated(found) => {
                assert(preferred < found ==> call_ensures(is_free, (preferred,), false));
                return Ok(found);
            },
            Probe::Retry(next) => {
                port = next;
            },
            Probe::Exhausted => {
                assert forall|p: u16| preferred <= p implies !surely_free(is_free, p) by {
                    assert(call_ensures(is_free, (p,), false));
                }
                return Err(AllocationError::Exhausted);
            },
        }
    }
}

/// Where the ports in `free` are the bindable ones, and `is_free` answers
/// accordingly, probing from `preferred` comes to `preferred` itself if it
/// is free, else to the smallest free port above it, and fails only if no
/// port from `preferred` upwards is free.
pub proof fn lemma_allocation_is_first_free<F: Fn(u16) -> bool>(
    is_free: F,
    free: Set<u16>,
    preferred: u16,
    result: Result<u16, AllocationError>,
)
    requires
        allocated(is_free, preferred, result),
        forall|p: u16, answer: bool|
            call_ensures(is_free, (p,), answer) ==> answer == free.contains(p),
    ensures
        free.contains(preferred) ==> result == Ok::<u16, AllocationError>(preferred),
        match result {
            Ok(port) => {
                &&& preferred <= port
                &&& free.contains(port)
                &&& forall|p: u16| preferred <= p < port ==> !free.contains(p)
            },
            Err(_) => forall|p: u16| preferred <= p ==> !free.contains(p),
        },
{
    match result {
        Ok(port) => {
            assert forall|p: u16| preferred <= p < port implies !free.contains(p) by {
                assert(call_ensures(is_free, (p,), false));
            }
            if free.contains(preferred) && preferred < port {
                assert(call_ensures(is_free, (preferred,), false));
            }
        },
        Err(_) => {
            assert forall|p: u16| preferred <= p implies !free.contains(p) by {
                assert(call_ensures(is_free, (p,), false));
            }
        },
    }
}

/// The port that the asset server listens on: the one the operator asked
/// for, untested; without a request, the first free port from
/// `DEFAULT_PORT` upwards.
pub fn server_port<F: Fn(u16) -> bool>(requested: Option<u16>, is_free: F) -> (result: Result<
    u16,
    AllocationError,
>)
    requires
        forall|port: u16| call_requires(is_free, (port,)),
    ensures
        match requested {
            Some(port) => result == Ok::<u16, AllocationError>(port),
            None => {
                &&& allocated(is_free, DEFAULT_PORT, result)
                &&& surely_free(is_free, DEFAULT_PORT) ==> result == Ok::<u16, AllocationError>(
                    DEFAULT_PORT,
                )
                &&& (exists|p: u16| DEFAULT_PORT <= p && surely_free(is_free, p)) ==> result is Ok
            },
        },
{
    match requested {
        Some(port) => Ok(port),
        None => allocate(DEFAULT_PORT, is_free),
    }
}

} // verus!
