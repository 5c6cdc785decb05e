//! The route: the stops along the line, and the train's place among them.

use vstd::prelude::*;

verus! {

/// A named checkpoint at a fixed distance, in metres, from the start of the line.
#[derive(Clone, Copy, Debug, PartialEq, Eq)]
pub struct RouteStop {
    pub threshold_distance: i32,
    pub name: &'static str,
}

/// Whether a list of stops makes a route: there is at least one stop, none
/// lies before the start of the line, and each lies farther than the one
/// before it. The last stop is the sentinel beyond the final destination.
pub open spec fn is_route(stops: Seq<RouteStop>) -> bool {
    &&& stops.len() > 0
    &&& stops[0].threshold_distance >= 0
    &&& forall|i: int, j: int|
        0 <= i < j < stops.len() ==> stops[i].threshold_distance < stops[j].threshold_distance
}

/// The line from Torino Porta Nuova to the south, with its sentinel.
pub open spec fn standard_stops() -> Seq<RouteStop> {
    seq![
        RouteStop { threshold_distance: 0, name: "P. Nuova" },
        RouteStop { threshold_distance: 800, name: "P. Susa" },
        RouteStop { threshold_distance: 5500, name: "P. Garibaldi" },
        RouteStop { threshold_distance: 7300, name: "Rogoredo" },
        RouteStop { threshold_distance: 10900, name: "R. Emilia" },
        RouteStop { threshold_distance: 13700, name: "Bologna C." },
        RouteStop { threshold_distance: 17500, name: "Fir. SMN" },
        RouteStop { threshold_distance: 26300, name: "Tiburtina" },
        RouteStop { threshold_distance: 30000, name: "Ciampino" },
        RouteStop { threshold_distance: 33500, name: "Napoli C." },
        RouteStop { threshold_distance: 38200, name: "Salerno" },
        RouteStop { threshold_distance: 666666, name: "Game Over" },
    ]
}

/// The distance at which the minister wants the train to stop, in metres.
pub const CIAMPINO: i32 = 30000;

/// An ordered list of stops that never changes once it is made.
#[derive(Debug)]
pub struct RouteTable {
    stops: Vec<RouteStop>,
}

impl View for RouteTable {
    type V = Seq<RouteStop>;

    closed spec fn view(&self) -> Seq<RouteStop> {
        self.stops@
    }
}

impl RouteTable {
    /// Every table made by this module holds a route.
    pub open spec fn wf(&self) -> bool {
        is_route(self@)
    }

    /// Makes a table of the given stops, if they form a route, and `None` if
    /// they do not.
    pub fn new(stops: Vec<RouteStop>) -> (table: Option<RouteTable>)
        ensures
            table.is_some() == is_route(stops@),
            table matches Some(t) ==> t@ == stops@ && t.wf(),
    {
        if stops.len() == 0 || stops[0].threshold_distance < 0 {
            return None;
        }
        let mut k: usize = 1;
        while k < stops.len()
            invariant
                1 <= k <= stops.len(),
                stops[0].threshold_distance >= 0,
                forall|i: int, j: int|
                    0 <= i < j < k ==> stops[i].threshold_distance < stops[j].threshold_distance,
            decreases stops.len() - k,
        {
            if stops[k - 1].threshold_distance >= stops[k].threshold_distance {
                return None;
            }
            proof {
                assert forall|i: int, j: int| 0 <= i < j < k + 1 implies stops[i].threshold_distance
                    < stops[j].threshold_distance by {
                    if j == k && i < k - 1 {
                        assert(stops[i].threshold_distance < stops[k - 1].threshold_distance);
                    }
                }
            }
            k += 1;
        }
        Some(RouteTable { stops })
    }

    /// The built-in line.
    pub fn standard() -> (table: RouteTable)
        ensures
            table@ == standard_stops(),
            table.wf(),
    {
        let mut stops: Vec<RouteStop> = Vec::new();
        stops.push(RouteStop { threshold_distance: 0, name: "P. Nuova" });
        stops.push(RouteStop { threshold_distance: 800, name: "P. Susa" });
        stops.push(RouteStop { threshold_distance: 5500, name: "P. Garibaldi" });
        stops.push(RouteStop { threshold_distance: 7300, name: "Rogoredo" });
        stops.push(RouteStop { threshold_distance: 10900, name: "R. Emilia" });
        stops.push(RouteStop { threshold_distance: 13700, name: "Bologna C." });
        stops.push(RouteStop { threshold_distance: 17500, name: "Fir. SMN" });
        stops.push(RouteStop { threshold_distance: 26300, name: "Tiburtina" });
        stops.push(RouteStop { threshold_distance: CIAMPINO, name: "Ciampino" });
        stops.push(RouteStop { threshold_distance: 33500, name: "Napoli C." });
        stops.push(RouteStop { threshold_distance: 38200, name: "Salerno" });
        stops.push(RouteStop { threshold_distance: 666666, name: "Game Over" });
        proof {
            assert(stops@ =~= standard_stops());
            lemma_standard_stops_is_route();
        }
        RouteTable { stops }
    }

    /// How many stops the table holds, the sentinel included.
    pub fn len(&self) -> (n: usize)
        ensures
            n == self@.len(),
    {
        self.stops.len()
    }

    /// The stop at `index`.
    pub fn stop(&self, index: usize) -> (stop: RouteStop)
        requires
            index < self@.len(),
        ensures
            stop == self@[index as int],
    {
        self.stops[index]
    }
}

/// The built-in line is a route.
pub proof fn lemma_standard_stops_is_route()
    ensures
        is_route(standard_stops()),
        standard_stops().len() == 12,
{
    let s = standard_stops();
    assert(s.len() == 12);
    assert forall|i: int, j: int| 0 <= i < j < s.len() implies s[i].threshold_distance
        < s[j].threshold_distance by {
        assert(s[0].threshold_distance == 0);
        assert(s[1].threshold_distance == 800);
        assert(s[2].threshold_distance == 5500);
        assert(s[3].threshold_distance == 7300);
        assert(s[4].threshold_distance == 10900);
        assert(s[5].threshold_distance == 13700);
        assert(s[6].threshold_distance == 17500);
        assert(s[7].threshold_distance == 26300);
        assert(s[8].threshold_distance == 30000);
        assert(s[9].threshold_distance == 33500);
        assert(s[10].threshold_distance == 38200);
        assert(s[11].threshold_distance == 666666);
    }
}

/// The distance from `position` to the stop at `index`: positive while the
/// stop lies ahead, zero or negative once the train is at it or past it.
pub open spec fn distance_to_stop(route: Seq<RouteStop>, index: int, position: int) -> int {
    route[index].threshold_distance - position
}

/// The stop that a train looks out for after it has asked for the distance to
/// the stop at `index`: the following one if that stop has been reached and is
/// not the last of the route, else the same.
pub open spec fn stop_after_query(route: Seq<RouteStop>, index: int, position: int) -> int {
    if distance_to_stop(route, index, position) <= 0 && index + 1 < route.len() {
        index + 1
    } else {
        index
    }
}

/// The train: how fast it goes, in fixed point, and which stop it looks out for.
#[derive(Clone, Copy, Debug, PartialEq, Eq)]
pub struct Train {
    pub velocity: i64,
    pub current_stop: usize,
}

impl Train {
    /// A train at the start of the line, going at `velocity`.
    pub fn new(velocity: i64) -> (train: Train)
        ensures
            train == (Train { velocity, current_stop: 0 }),
    {
        Train { velocity, current_stop: 0 }
    }

    /// The distance in metres from `position` to the stop the train looks out
    /// for. This query moves the train on: when the answer is zero or less, the
    /// stop has been reached, and the train looks out for the one after it from
    /// the next query on. The answer of this query is still the distance to the
    /// stop just reached. The last stop of the route is never left behind.
    pub fn get_next_stop_distance(&mut self, route: &RouteTable, position: i32) -> (distance: i64)
        requires
            route.wf(),
            old(self).current_stop < route@.len(),
        ensures
            distance == distance_to_stop(route@, old(self).current_stop as int, position as int),
            final(self).current_stop == stop_after_query(
                route@,
                old(self).current_stop as int,
                position as int,
            ),
            final(self).velocity == old(self).velocity,
            old(self).current_stop <= final(self).current_stop < route@.len(),
    {
        let threshold: i32 = route.stop(self.current_stop).threshold_distance;
        let distance: i64 = threshold as i64 - position as i64;
        if distance <= 0 && self.current_stop < route.len() - 1 {
            self.current_stop += 1;
        }
        distance
    }
}

} // verus!
