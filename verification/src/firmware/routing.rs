//! Default hardware/software routing: which protocol, if any, each named
//! serial port gets at boot, from the active system's default routes.
//! A mapping that names a port twice, or a port the board does not
//! provide, is refused.

use vstd::prelude::*;

use super::serial_protocol::SerialProtocol;
use crate::catalog::items::{board_has_pin, pin_cfg_name, BoardView, Pin, Protocol};
use crate::catalog::systems::{SerialRoute, SystemConfig, SystemView};

verus! {

/// Why a system's default routes were refused.
#[derive(Clone, Copy, Debug, PartialEq, Eq, Structural)]
pub enum RoutingError {
    /// More than one protocol is routed to this port.
    DuplicateRoute(Pin),
    /// Routes are declared but the system has no board.
    NoBoard,
    /// This port is routed but the board does not provide it.
    PinNotOnBoard(Pin),
}

/// The firmware protocol a catalog protocol names (the variant of the same
/// name).
pub open spec fn firmware_protocol(p: Protocol) -> SerialProtocol {
    match p {
        Protocol::Sbus => SerialProtocol::Sbus,
        Protocol::Crsf => SerialProtocol::Crsf,
        Protocol::Msp => SerialProtocol::Msp,
        Protocol::Mavlink => SerialProtocol::Mavlink,
    }
}

/// The firmware protocol a catalog protocol names.
pub fn to_firmware_protocol(p: Protocol) -> (protocol: SerialProtocol)
    ensures
        protocol == firmware_protocol(p),
{
    match p {
        Protocol::Sbus => SerialProtocol::Sbus,
        Protocol::Crsf => SerialProtocol::Crsf,
        Protocol::Msp => SerialProtocol::Msp,
        Protocol::Mavlink => SerialProtocol::Mavlink,
    }
}

/// Checks routes in order; the first route that repeats an earlier route's
/// port, has no board to refer to, or names a port the board lacks, decides
/// the error.
pub open spec fn check_routes(routes: Seq<SerialRoute>, board: Option<BoardView>) -> Result<
    (),
    RoutingError,
>
    decreases routes.len(),
{
    if routes.len() == 0 {
        Ok(())
    } else {
        match check_routes(routes.drop_last(), board) {
            Err(e) => Err(e),
            Ok(()) => {
                let r = routes.last();
                if exists|k: int| 0 <= k < routes.len() - 1 && #[trigger] routes[k].pin == r.pin {
                    Err(RoutingError::DuplicateRoute(r.pin))
                } else if board is None {
                    Err(RoutingError::NoBoard)
                } else if !board_has_pin(board.unwrap(), pin_cfg_name(r.pin)) {
                    Err(RoutingError::PinNotOnBoard(r.pin))
                } else {
                    Ok(())
                }
            },
        }
    }
}

/// The protocol the first route naming `port` assigns, if any.
#[verifier::opaque]
pub open spec fn route_for(routes: Seq<SerialRoute>, port: Pin) -> Option<SerialProtocol> {
    if exists|k: int| 0 <= k < routes.len() && #[trigger] routes[k].pin == port {
        let k = choose|k: int|
            0 <= k < routes.len() && #[trigger] routes[k].pin == port && forall|m: int|
                0 <= m < k ==> routes[m].pin != port;
        Some(firmware_protocol(routes[k].protocol))
    } else {
        None
    }
}

/// The default protocol of each named serial port.
#[derive(Clone, Copy, Debug, PartialEq, Eq, Structural)]
pub struct PortRoutes {
    pub serial1: Option<SerialProtocol>,
    pub serial2: Option<SerialProtocol>,
    pub serial3: Option<SerialProtocol>,
}

/// The routes a system declares (none without a system) and its board.
pub open spec fn declared_routes(system: Option<SystemView>) -> Seq<SerialRoute> {
    match system {
        Some(s) => s.default_serial_routes,
        None => Seq::empty(),
    }
}

/// The board of an optional system.
pub open spec fn system_board(system: Option<SystemView>) -> Option<BoardView> {
    match system {
        Some(s) => s.board,
        None => None,
    }
}

/// The default routing of an optional system: refused as `check_routes`
/// says, otherwise each port's first route.
pub open spec fn default_routing(system: Option<SystemView>) -> Result<PortRoutes, RoutingError> {
    let routes = declared_routes(system);
    match check_routes(routes, system_board(system)) {
        Err(e) => Err(e),
        Ok(()) => Ok(
            PortRoutes {
                serial1: route_for(routes, Pin::Serial1),
                serial2: route_for(routes, Pin::Serial2),
                serial3: route_for(routes, Pin::Serial3),
            },
        ),
    }
}

/// An optional system, as plain values.
pub open spec fn active_system(system: Option<&SystemConfig>) -> Option<SystemView> {
    match system {
        Some(s) => Some(s@),
        None => None,
    }
}

/// The protocol the first route naming `port` assigns, if any.
fn port_route(routes: &Vec<SerialRoute>, port: Pin) -> (protocol: Option<SerialProtocol>)
    ensures
        protocol == route_for(routes@, port),
{
    reveal(route_for);
    let n = routes.len();
    let mut i: usize = 0;
    while i < n
        invariant
            n == routes@.len(),
            i <= n,
            forall|m: int| 0 <= m < i ==> routes@[m].pin != port,
        decreases n - i,
    {
        let route = routes[i];
        if route.pin == port {
            proof {
                reveal(route_for);
                let k = choose|k: int|
                    0 <= k < routes@.len() && #[trigger] routes@[k].pin == port && forall|m: int|
                        0 <= m < k ==> routes@[m].pin != port;
                assert(routes@[i as int].pin == port);
                if k > i {
                } else if k < i {
                }
                assert(k == i);
            }
            return Some(to_firmware_protocol(route.protocol));
        }
        i = i + 1;
    }
    None
}

/// Checks a system's default routes against its board.
fn validate_routes(routes: &Vec<SerialRoute>, board: Option<&crate::catalog::items::BoardConfig>) -> (checked: Result<(), RoutingError>)
    ensures
        checked == check_routes(
            routes@,
            match board {
                Some(b) => Some(b@),
                None => None,
            },
        ),
{
    let ghost bv = match board {
        Some(b) => Some(b@),
        None => None::<BoardView>,
    };
    let n = routes.len();
    let mut i: usize = 0;
    while i < n
        invariant
            n == routes@.len(),
            i <= n,
            bv == (match board {
                Some(b) => Some(b@),
                None => None::<BoardView>,
            }),
            check_routes(routes@.take(i as int), bv) == Ok::<(), RoutingError>(()),
        decreases n - i,
    {
        let route = routes[i];
        let prefix = Ghost(routes@.take(i + 1));
        proof {
            assert(prefix@.drop_last() =~= routes@.take(i as int));
            assert(prefix@.last() == route);
        }
        let mut j: usize = 0;
        #[verifier::loop_isolation(false)]
        while j < i
            invariant
                i < n,
                n == routes@.len(),
                j <= i,
                route == routes@[i as int],
                forall|k: int| 0 <= k < j ==> routes@[k].pin != route.pin,
            decreases i - j,
        {
            if routes[j].pin == route.pin {
                proof {
                    assert(prefix@[j as int].pin == prefix@.last().pin);
                    assert(check_routes(prefix@, bv) == Err::<(), RoutingError>(
                        RoutingError::DuplicateRoute(route.pin),
                    ));
                    lemma_first_routing_error(routes@, bv, i + 1);
                }
                return Err(RoutingError::DuplicateRoute(route.pin));
            }
            j = j + 1;
        }
        proof {
            assert(!exists|k: int| 0 <= k < prefix@.len() - 1 && #[trigger] prefix@[k].pin
                == prefix@.last().pin);
        }
        match board {
            None => {
                proof {
                    lemma_first_routing_error(routes@, bv, i + 1);
                }
                return Err(RoutingError::NoBoard);
            },
            Some(b) => {
                if !b.has_pin(route.pin.cfg_name()) {
                    proof {
                        lemma_first_routing_error(routes@, bv, i + 1);
                    }
                    return Err(RoutingError::PinNotOnBoard(route.pin));
                }
            },
        }
        i = i + 1;
    }
    proof {
        assert(routes@.take(n as int) =~= routes@);
    }
    Ok(())
}

/// Once a prefix of the routes is refused, all of them are, for the same
/// reason.
proof fn lemma_first_routing_error(routes: Seq<SerialRoute>, board: Option<BoardView>, k: int)
    requires
        0 <= k <= routes.len(),
        check_routes(routes.take(k), board) is Err,
    ensures
        check_routes(routes, board) == check_routes(routes.take(k), board),
    decreases routes.len(),
{
    if k < routes.len() {
        assert(routes.drop_last().take(k) =~= routes.take(k));
        lemma_first_routing_error(routes.drop_last(), board, k);
    } else {
        assert(routes.take(k) =~= routes);
    }
}

/// The default protocol of each named serial port for the active system
/// (no routes without one), after checking the routes against its board.
pub fn default_routes(system: Option<&SystemConfig>) -> (routing: Result<PortRoutes, RoutingError>)
    ensures
        routing == default_routing(active_system(system)),
{
    let empty: Vec<SerialRoute> = Vec::new();
    let (routes, board) = match system {
        Some(s) => (s.routes(), s.board_config()),
        None => (&empty, None),
    };
    assert(routes@ == declared_routes(active_system(system)));
    match validate_routes(routes, board) {
        Err(e) => Err(e),
        Ok(()) => Ok(
            PortRoutes {
                serial1: port_route(routes, Pin::Serial1),
                serial2: port_route(routes, Pin::Serial2),
                serial3: port_route(routes, Pin::Serial3),
            },
        ),
    }
}

} // verus!
