//! Choosing the port to serve on: the requested one, or the next free one
//! up to ten ports higher.
//!
//! Whether a port is free is only known by binding it, so the search is a
//! step function: it names the port to try next, and is told whether that
//! port could be bound.

use vstd::prelude::*;
use crate::build_path::first_found_from;

verus! {

/// How many ports above the requested one the search goes.
pub const PORT_SEARCH_SPAN: u16 = 10;

/// Where a port search stands.
#[derive(Clone, Copy, Debug, PartialEq, Eq, Structural)]
pub enum PortProbe {
    /// Try to bind this port next.
    Try(u16),
    /// This port was bound: serve on it.
    Found(u16),
    /// No port of the range could be bound.
    Exhausted,
}

/// The search range starting at `start` fits in the port numbers.
pub open spec fn port_range_fits(start: u16) -> bool {
    start + PORT_SEARCH_SPAN <= u16::MAX
}

/// The next stand of the search after trying `tried`, which `bound` tells
/// could or could not be bound.
pub open spec fn port_step(start: u16, tried: u16, bound: bool) -> PortProbe {
    if bound {
        PortProbe::Found(tried)
    } else if tried < start + PORT_SEARCH_SPAN {
        PortProbe::Try((tried + 1) as u16)
    } else {
        PortProbe::Exhausted
    }
}

/// The first step of a search from `start`: try `start` itself.
pub fn begin_port_search(start: u16) -> (probe: PortProbe)
    requires
        port_range_fits(start),
    ensures
        probe == PortProbe::Try(start),
{
    PortProbe::Try(start)
}

/// One step of the search from `start`: `tried` was just tried, and `bound`
/// tells whether it could be bound.
pub fn port_search_step(start: u16, tried: u16, bound: bool) -> (probe: PortProbe)
    requires
        port_range_fits(start),
        start <= tried <= start + PORT_SEARCH_SPAN,
    ensures
        probe == port_step(start, tried, bound),
{
    if bound {
        PortProbe::Found(tried)
    } else if tried < start + PORT_SEARCH_SPAN {
        PortProbe::Try(tried + 1)
    } else {
        PortProbe::Exhausted
    }
}

/// Where the search ends when it has reached `tried` and port `start + i`
/// can be bound exactly when `free[i]`.
pub open spec fn search_outcome(start: u16, free: Seq<bool>, tried: int) -> PortProbe
    decreases start + PORT_SEARCH_SPAN - tried,
{
    if start <= tried <= start + PORT_SEARCH_SPAN && tried - start < free.len() {
        match port_step(start, tried as u16, free[tried - start]) {
            PortProbe::Try(p) => if tried < p <= start + PORT_SEARCH_SPAN {
                search_outcome(start, free, p as int)
            } else {
                PortProbe::Exhausted
            },
            other => other,
        }
    } else {
        PortProbe::Exhausted
    }
}

proof fn lemma_search_outcome_from(start: u16, free: Seq<bool>, tried: int)
    requires
        port_range_fits(start),
        free.len() == PORT_SEARCH_SPAN + 1,
        start <= tried <= start + PORT_SEARCH_SPAN,
    ensures
        search_outcome(start, free, tried) == match first_found_from(free, tried - start) {
            Some(i) => PortProbe::Found((start + i) as u16),
            None => PortProbe::Exhausted,
        },
    decreases start + PORT_SEARCH_SPAN - tried,
{
    let t = tried as u16;
    assert(t as int == tried);
    if !free[tried - start] && tried < start + PORT_SEARCH_SPAN {
        let next = (t + 1) as u16;
        assert(next as int == tried + 1);
        assert(port_step(start, t, false) == PortProbe::Try(next));
        lemma_search_outcome_from(start, free, tried + 1);
        assert(first_found_from(free, tried - start) == first_found_from(free, tried + 1 - start));
    } else if free[tried - start] {
        assert(first_found_from(free, tried - start) == Some(tried - start));
        assert(((start + (tried - start)) as u16) == t);
    }
}

/// Driven from its first step with the bind results of the ports in order,
/// the search ends on the first free port of `start ..= start + 10`, or is
/// exhausted when none of them is free.
pub proof fn lemma_search_finds_first_free_port(start: u16, free: Seq<bool>)
    requires
        port_range_fits(start),
        free.len() == PORT_SEARCH_SPAN + 1,
    ensures
        search_outcome(start, free, start as int) == match first_found_from(free, 0) {
            Some(i) => PortProbe::Found((start + i) as u16),
            None => PortProbe::Exhausted,
        },
{
    lemma_search_outcome_from(start, free, start as int);
}

} // verus!
