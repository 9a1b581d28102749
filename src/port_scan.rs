use vstd::prelude::*;

verus! {

/// What a scan of `start..=end` may return, given what `can_bind` reported:
/// a port whose bind succeeded, with every lower port of the range failing,
/// or nothing when every port of the range failed.
pub open spec fn scan_result<F: Fn(u16) -> bool>(start: u16, end: u16, can_bind: F, r: Option<u16>) -> bool {
    match r {
        Some(p) => {
            &&& start <= p <= end
            &&& can_bind.ensures((p,), true)
            &&& forall|q: u16| start <= q < p ==> can_bind.ensures((q,), false)
        },
        None => forall|q: u16| start <= q <= end ==> can_bind.ensures((q,), false),
    }
}

/// Finds the first port of `start..=end` that can be bound, probing the
/// ports in ascending order and stopping at the first success.
///
/// `can_bind` attempts to bind a listening socket on a port and releases it
/// at once; it reports whether the bind succeeded.
pub fn find_free_port<F: Fn(u16) -> bool>(start: u16, end: u16, can_bind: F) -> (r: Option<u16>)
    requires
        forall|p: u16| start <= p <= end ==> can_bind.requires((p,)),
    ensures
        scan_result(start, end, can_bind, r),
{
    let mut port: u32 = start as u32;
    while port <= end as u32
        invariant
            start <= port,
            port <= end as u32 + 1 || port == start,
            forall|p: u16| start <= p <= end ==> can_bind.requires((p,)),
            forall|q: u16| start <= q < port ==> can_bind.ensures((q,), false),
        decreases end as u32 + 1 - port,
    {
        let p = port as u16;
        if can_bind(p) {
            return Some(p);
        }
        port = port + 1;
    }
    None
}

/// First fit: where the free ports stay the same during the scan (`free`),
/// the scan returns the smallest free port of `start..=end`, and nothing
/// exactly when the range holds no free port; it never returns a port
/// outside the range.
pub proof fn lemma_scan_is_first_fit<F: Fn(u16) -> bool>(
    start: u16,
    end: u16,
    can_bind: F,
    free: spec_fn(u16) -> bool,
    r: Option<u16>,
)
    requires
        forall|p: u16, b: bool| #[trigger] can_bind.ensures((p,), b) ==> b == free(p),
        scan_result(start, end, can_bind, r),
    ensures
        r matches Some(p) ==> start <= p <= end && free(p) && forall|q: u16|
            start <= q <= end && #[trigger] free(q) ==> p <= q,
        r is None <==> forall|q: u16| start <= q <= end ==> !#[trigger] free(q),
{
    match r {
        Some(p) => {
            assert forall|q: u16| start <= q <= end && #[trigger] free(q) implies p <= q by {
                if q < p {
                    assert(can_bind.ensures((q,), false));
                }
            }
            assert(!free(p) ==> !can_bind.ensures((p,), true));
        },
        None => {
            assert forall|q: u16| start <= q <= end implies !#[trigger] free(q) by {
                assert(can_bind.ensures((q,), false));
            }
        },
    }
}

} // verus!
