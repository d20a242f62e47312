//! Picking a free local port.
use vstd::prelude::*;

verus! {

/// The first port from `start_at` (8000 when not given) upwards that
/// `is_available` accepts; `None` when no port up to 65535 is accepted.
/// Each port is asked about once, in increasing order.
pub fn get_available_port<F: Fn(u16) -> bool>(start_at: Option<u16>, is_available: F) -> (r: Option<u16>)
    requires
        forall|p: u16| is_available.requires((p,)),
    ensures
        ({
            let start = match start_at {
                Some(s) => s,
                None => 8000u16,
            };
            match r {
                Some(p) => start <= p && is_available.ensures((p,), true) && forall|q: u16|
                    start <= q < p ==> is_available.ensures((q,), false),
                None => forall|q: u16| start <= q ==> is_available.ensures((q,), false),
            }
        }),
{
    let mut port: u16 = match start_at {
        Some(s) => s,
        None => 8000,
    };
    let ghost start = port;
    loop
        invariant
            forall|p: u16| is_available.requires((p,)),
            start <= port,
            forall|q: u16| start <= q < port ==> is_available.ensures((q,), false),
            start == match start_at {
                Some(s) => s,
                None => 8000u16,
            },
        decreases u16::MAX - port,
    {
        if is_available(port) {
            return Some(port);
        }
        if port == u16::MAX {
            return None;
        }
        port = port + 1;
    }
}

} // verus!
