use vstd::prelude::*;

verus! {

/// The first port that the callback server may listen on.
pub const FIRST_CALLBACK_PORT: u16 = 8000;

/// The port just past the last one that the callback server may listen on.
pub const END_CALLBACK_PORT: u16 = 9000;

/// The next move of the search for a free callback port.
#[derive(Clone, Copy, Debug, PartialEq, Eq, Structural)]
pub enum PortProbe {
    /// Try to bind this port.
    Try(u16),
    /// This port could be bound: listen on it.
    Found(u16),
    /// No port of the range could be bound.
    Exhausted,
}

/// The move after trying `port`.
pub open spec fn probe_step(port: u16, bound: bool) -> PortProbe {
    if bound {
        PortProbe::Found(port)
    } else if port + 1 < END_CALLBACK_PORT {
        PortProbe::Try((port + 1) as u16)
    } else {
        PortProbe::Exhausted
    }
}

/// The first port to try.
pub fn first_port_probe() -> (p: PortProbe)
    ensures
        p == PortProbe::Try(FIRST_CALLBACK_PORT),
{
    PortProbe::Try(FIRST_CALLBACK_PORT)
}

/// Goes on after trying to bind `port`: a port that could be bound is
/// taken, else the next port of the range is tried, and the search gives up
/// after the last.
pub fn next_port_probe(port: u16, bound: bool) -> (p: PortProbe)
    requires
        FIRST_CALLBACK_PORT <= port < END_CALLBACK_PORT,
    ensures
        p == probe_step(port, bound),
{
    if bound {
        PortProbe::Found(port)
    } else if port + 1 < END_CALLBACK_PORT {
        PortProbe::Try(port + 1)
    } else {
        PortProbe::Exhausted
    }
}

/// Where the search stands after trying the ports from `port` on, where
/// `bound[i]` tells whether port `FIRST_CALLBACK_PORT + i` could be bound.
pub open spec fn search_from(bound: Seq<bool>, port: u16) -> PortProbe
    decreases END_CALLBACK_PORT - port,
{
    if port < FIRST_CALLBACK_PORT || port >= END_CALLBACK_PORT {
        PortProbe::Exhausted
    } else {
        match probe_step(port, bound[port - FIRST_CALLBACK_PORT]) {
            PortProbe::Try(next) => search_from(bound, next),
            other => other,
        }
    }
}

/// Following the moves from `port` on finds the first port at or after it
/// that could be bound, or gives up when there is none.
pub proof fn lemma_search_from(bound: Seq<bool>, port: u16)
    requires
        bound.len() == END_CALLBACK_PORT - FIRST_CALLBACK_PORT,
        FIRST_CALLBACK_PORT <= port < END_CALLBACK_PORT,
    ensures
        match search_from(bound, port) {
            PortProbe::Found(p) => port <= p < END_CALLBACK_PORT
                && bound[p - FIRST_CALLBACK_PORT]
                && forall|q: int| port <= q < p ==> !(#[trigger] bound[q - FIRST_CALLBACK_PORT]),
            PortProbe::Exhausted => forall|q: int|
                port <= q < END_CALLBACK_PORT ==> !(#[trigger] bound[q - FIRST_CALLBACK_PORT]),
            PortProbe::Try(_) => false,
        },
    decreases END_CALLBACK_PORT - port,
{
    if !bound[port - FIRST_CALLBACK_PORT] && port + 1 < END_CALLBACK_PORT {
        lemma_search_from(bound, (port + 1) as u16);
    }
}

/// The search for a callback port, started at the first port of the range,
/// takes the lowest port of the range that could be bound, and gives up only
/// when none could.
pub proof fn lemma_search_takes_lowest_free_port(bound: Seq<bool>)
    requires
        bound.len() == END_CALLBACK_PORT - FIRST_CALLBACK_PORT,
    ensures
        match search_from(bound, FIRST_CALLBACK_PORT) {
            PortProbe::Found(p) => FIRST_CALLBACK_PORT <= p < END_CALLBACK_PORT
                && bound[p - FIRST_CALLBACK_PORT]
                && forall|q: int| FIRST_CALLBACK_PORT <= q < p ==> !(#[trigger] bound[q - FIRST_CALLBACK_PORT]),
            PortProbe::Exhausted => forall|i: int| 0 <= i < bound.len() ==> !(#[trigger] bound[i]),
            PortProbe::Try(_) => false,
        },
{
    lemma_search_from(bound, FIRST_CALLBACK_PORT);
    if search_from(bound, FIRST_CALLBACK_PORT) is Exhausted {
        assert forall|i: int| 0 <= i < bound.len() implies !(#[trigger] bound[i]) by {
            assert(!bound[(i + FIRST_CALLBACK_PORT) - FIRST_CALLBACK_PORT]);
        }
    }
}

} // verus!
