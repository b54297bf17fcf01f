use vstd::prelude::*;

use crate::distance::{DistanceCalculationError, DistanceCalculator};
use crate::models::{Airport, Coordinates, Datum, FloatBits, Formula};
use crate::strutil::seq_views;

verus! {

/// Why a route could not be calculated.
#[derive(Debug, Clone, PartialEq, Eq)]
pub enum RouteError {
    /// Fewer than two points were supplied, so there is no leg to compute.
    InvalidRoute,
    /// A single leg's calculation failed; the calculator's error is
    /// propagated verbatim.
    Calculation(DistanceCalculationError),
}

/// Why a route over airport codes could not be resolved to records.
#[derive(Debug, Clone, PartialEq)]
pub enum AirportsRouteError {
    /// The backing store failed while resolving at least one code.
    StoreFault,
    /// Every store read succeeded, but these codes have no record.
    MissingAirports(Vec<String>),
}

/// One leg of a route over raw coordinates: the ordered endpoint pair and
/// the computed distance for it.
#[derive(Debug, Clone, Copy, PartialEq, Eq, Structural)]
pub struct CoordinatesRoutePart {
    pub from: Coordinates,
    pub to: Coordinates,
    pub distance: FloatBits,
}

/// A route endpoint annotated with the airport code it was resolved from.
#[derive(Debug, Clone, PartialEq)]
pub struct AirportCoordinates {
    pub iata_code: String,
    pub coordinates: Coordinates,
}

/// One leg of a route over airports.
#[derive(Debug, Clone, PartialEq)]
pub struct AirportRoutePart {
    pub from: AirportCoordinates,
    pub to: AirportCoordinates,
    pub distance: FloatBits,
}

/// A request to compute a route over raw coordinates.
#[derive(Debug, Clone, PartialEq)]
pub struct CoordinatesDistanceRequest {
    pub route: Vec<Coordinates>,
    pub formula: Formula,
    pub datum: Datum,
}

impl CoordinatesDistanceRequest {
    /// A route must name at least two points.
    pub fn validate(&self) -> (r: Result<(), RouteError>)
        ensures
            r matches Ok(_) <==> self.route@.len() >= 2,
            r matches Err(e) ==> e == RouteError::InvalidRoute,
    {
        if self.route.len() >= 2 {
            Ok(())
        } else {
            Err(RouteError::InvalidRoute)
        }
    }
}

/// A request to compute a route over airport codes.
#[derive(Debug, Clone, PartialEq)]
pub struct AirportDistanceRequest {
    pub route: Vec<String>,
    pub formula: Formula,
    pub datum: Datum,
}

impl AirportDistanceRequest {
    /// A route must name at least two airports.
    pub fn validate(&self) -> (r: Result<(), RouteError>)
        ensures
            r matches Ok(_) <==> self.route@.len() >= 2,
            r matches Err(e) ==> e == RouteError::InvalidRoute,
    {
        if self.route.len() >= 2 {
            Ok(())
        } else {
            Err(RouteError::InvalidRoute)
        }
    }
}

/// Turns an ordered list of at least two points into consecutive-pair legs,
/// leg `i` connecting point `i` to point `i + 1`, each carrying the distance
/// the calculator returned for it.
///
/// Processing follows point order and stops at the first leg whose
/// calculation fails: the whole operation then fails with that error and no
/// partial leg list is returned. Fewer than two points is rejected up front
/// as `InvalidRoute`.
pub fn calculate_route<C: DistanceCalculator>(points: &Vec<Coordinates>, calculator: &C) -> (r:
    Result<Vec<CoordinatesRoutePart>, RouteError>)
    ensures
        match r {
            Ok(legs) => points@.len() >= 2 && legs@.len() == points@.len() - 1 && (forall|i: int|
                0 <= i < legs@.len() ==> (#[trigger] legs@[i]).from == points@[i] && legs@[i].to
                    == points@[i + 1] && call_ensures(
                    C::calculate_distance,
                    (calculator, &points@[i], &points@[i + 1]),
                    Ok(legs@[i].distance),
                )),
            Err(RouteError::InvalidRoute) => points@.len() < 2,
            Err(RouteError::Calculation(e)) => points@.len() >= 2 && (exists|i: int|
                #![trigger points@[i]]
                0 <= i < points@.len() - 1 && call_ensures(
                    C::calculate_distance,
                    (calculator, &points@[i], &points@[i + 1]),
                    Err(e),
                )),
        },
{
    if points.len() < 2 {
        return Err(RouteError::InvalidRoute);
    }
    let mut legs: Vec<CoordinatesRoutePart> = Vec::new();
    let mut i: usize = 0;
    while i < points.len() - 1
        invariant
            points@.len() >= 2,
            i <= points@.len() - 1,
            legs@.len() == i,
            forall|j: int|
                0 <= j < i ==> (#[trigger] legs@[j]).from == points@[j] && legs@[j].to == points@[j
                    + 1] && call_ensures(
                    C::calculate_distance,
                    (calculator, &points@[j], &points@[j + 1]),
                    Ok(legs@[j].distance),
                ),
        decreases points@.len() - i,
    {
        let from = points[i];
        let to = points[i + 1];
        let outcome = calculator.calculate_distance(&from, &to);
        match outcome {
            Ok(distance) => {
                legs.push(CoordinatesRoutePart { from, to, distance });
            },
            Err(e) => {
                proof {
                    assert(call_ensures(
                        C::calculate_distance,
                        (calculator, &points@[i as int], &points@[i as int + 1]),
                        Err(e),
                    ));
                }
                return Err(RouteError::Calculation(e));
            },
        }
        i += 1;
    }
    Ok(legs)
}

/// Turns an ordered list of resolved airports into consecutive-pair legs,
/// each endpoint annotated with its airport code, stopping at the first leg
/// whose calculation fails.
///
/// Rejecting a list of fewer than two airports is the caller's concern
/// (`AirportDistanceRequest::validate`); a shorter list here simply yields
/// no legs.
pub fn calculate_distances<C: DistanceCalculator>(route: &Vec<Airport>, calculator: &C) -> (r:
    Result<Vec<AirportRoutePart>, DistanceCalculationError>)
    ensures
        match r {
            Ok(legs) => legs@.len() == (if route@.len() == 0 {
                0int
            } else {
                route@.len() - 1
            }) && (forall|i: int|
                0 <= i < legs@.len() ==> (#[trigger] legs@[i]).from.iata_code@
                    == route@[i].iata_code@ && legs@[i].from.coordinates == (Coordinates {
                    latitude: route@[i].lat_decimal,
                    longitude: route@[i].lon_decimal,
                }) && legs@[i].to.iata_code@ == route@[i + 1].iata_code@ && legs@[i].to.coordinates
                    == (Coordinates {
                    latitude: route@[i + 1].lat_decimal,
                    longitude: route@[i + 1].lon_decimal,
                }) && call_ensures(
                    C::calculate_distance,
                    (
                        calculator,
                        &(Coordinates {
                            latitude: route@[i].lat_decimal,
                            longitude: route@[i].lon_decimal,
                        }),
                        &(Coordinates {
                            latitude: route@[i + 1].lat_decimal,
                            longitude: route@[i + 1].lon_decimal,
                        }),
                    ),
                    Ok(legs@[i].distance),
                )),
            Err(e) => route@.len() >= 2 && (exists|i: int|
                #![trigger route@[i]]
                0 <= i < route@.len() - 1 && call_ensures(
                    C::calculate_distance,
                    (
                        calculator,
                        &(Coordinates {
                            latitude: route@[i].lat_decimal,
                            longitude: route@[i].lon_decimal,
                        }),
                        &(Coordinates {
                            latitude: route@[i + 1].lat_decimal,
                            longitude: route@[i + 1].lon_decimal,
                        }),
                    ),
                    Err(e),
                )),
        },
{
    let mut legs: Vec<AirportRoutePart> = Vec::new();
    if route.len() == 0 {
        return Ok(legs);
    }
    let mut i: usize = 0;
    while i < route.len() - 1
        invariant
            route@.len() >= 1,
            i <= route@.len() - 1,
            legs@.len() == i,
            forall|j: int|
                0 <= j < i ==> (#[trigger] legs@[j]).from.iata_code@ == route@[j].iata_code@
                    && legs@[j].from.coordinates == (Coordinates {
                    latitude: route@[j].lat_decimal,
                    longitude: route@[j].lon_decimal,
                }) && legs@[j].to.iata_code@ == route@[j + 1].iata_code@ && legs@[j].to.coordinates
                    == (Coordinates {
                    latitude: route@[j + 1].lat_decimal,
                    longitude: route@[j + 1].lon_decimal,
                }) && call_ensures(
                    C::calculate_distance,
                    (
                        calculator,
                        &(Coordinates {
                            latitude: route@[j].lat_decimal,
                            longitude: route@[j].lon_decimal,
                        }),
                        &(Coordinates {
                            latitude: route@[j + 1].lat_decimal,
                            longitude: route@[j + 1].lon_decimal,
                        }),
                    ),
                    Ok(legs@[j].distance),
                ),
        decreases route@.len() - i,
    {
        let from_coords = Coordinates::new(route[i].lat_decimal, route[i].lon_decimal);
        let to_coords = Coordinates::new(route[i + 1].lat_decimal, route[i + 1].lon_decimal);
        let outcome = calculator.calculate_distance(&from_coords, &to_coords);
        match outcome {
            Ok(distance) => {
                let from = AirportCoordinates {
                    iata_code: route[i].iata_code.clone(),
                    coordinates: from_coords,
                };
                let to = AirportCoordinates {
                    iata_code: route[i + 1].iata_code.clone(),
                    coordinates: to_coords,
                };
                legs.push(AirportRoutePart { from, to, distance });
            },
            Err(e) => {
                proof {
                    assert(call_ensures(
                        C::calculate_distance,
                        (
                            calculator,
                            &(Coordinates {
                                latitude: route@[i as int].lat_decimal,
                                longitude: route@[i as int].lon_decimal,
                            }),
                            &(Coordinates {
                                latitude: route@[i as int + 1].lat_decimal,
                                longitude: route@[i as int + 1].lon_decimal,
                            }),
                        ),
                        Err(e),
                    ));
                }
                return Err(e);
            },
        }
        i += 1;
    }
    Ok(legs)
}

/// Whether the store failed for at least one of the per-code results.
pub open spec fn spec_any_store_error(
    results: Seq<(String, Result<Option<Airport>, String>)>,
) -> bool {
    exists|i: int| 0 <= i < results.len() && (#[trigger] results[i]).1 matches Err(_)
}

/// The codes whose store read succeeded but found no record, in order.
pub open spec fn spec_missing_iatas(
    results: Seq<(String, Result<Option<Airport>, String>)>,
) -> Seq<Seq<char>>
    decreases results.len(),
{
    if results.len() == 0 {
        Seq::empty()
    } else {
        let prefix = spec_missing_iatas(results.drop_last());
        match results.last().1 {
            Ok(found) => if found is None {
                prefix.push(results.last().0@)
            } else {
                prefix
            },
            Err(_) => prefix,
        }
    }
}

/// The records that were found, in order.
pub open spec fn spec_found_airports(
    results: Seq<(String, Result<Option<Airport>, String>)>,
) -> Seq<Airport>
    decreases results.len(),
{
    if results.len() == 0 {
        Seq::empty()
    } else {
        let prefix = spec_found_airports(results.drop_last());
        match results.last().1 {
            Ok(found) => match found {
                Some(airport) => prefix.push(airport),
                None => prefix,
            },
            Err(_) => prefix,
        }
    }
}

/// Collects the per-code store results for a route into the resolved
/// records, in route order.
///
/// Any store failure fails the whole resolution as `StoreFault`. Otherwise,
/// if any code found no record, the resolution fails with the list of all
/// missing codes, in route order. Only when every code resolved does the
/// route proceed.
pub fn collect_route_airports(results: &Vec<(String, Result<Option<Airport>, String>)>) -> (r:
    Result<Vec<Airport>, AirportsRouteError>)
    ensures
        match r {
            Ok(airports) => !spec_any_store_error(results@) && spec_missing_iatas(results@).len()
                == 0 && airports@ == spec_found_airports(results@),
            Err(AirportsRouteError::StoreFault) => spec_any_store_error(results@),
            Err(AirportsRouteError::MissingAirports(missing)) => !spec_any_store_error(results@)
                && spec_missing_iatas(results@).len() > 0 && seq_views(missing@)
                == spec_missing_iatas(results@),
        },
{
    let ghost all = results@;
    let mut airports: Vec<Airport> = Vec::new();
    let mut missing: Vec<String> = Vec::new();
    let mut i: usize = 0;
    while i < results.len()
        invariant
            all == results@,
            i <= all.len(),
            forall|j: int| 0 <= j < i ==> !((#[trigger] all[j]).1 matches Err(_)),
            airports@ == spec_found_airports(all.take(i as int)),
            seq_views(missing@) == spec_missing_iatas(all.take(i as int)),
        decreases all.len() - i,
    {
        proof {
            assert(all.take(i + 1).drop_last() =~= all.take(i as int));
            assert(all.take(i + 1).last() == all[i as int]);
        }
        match &results[i].1 {
            Ok(found) => {
                match found {
                    Some(airport) => {
                        airports.push(airport.duplicate());
                    },
                    None => {
                        missing.push(results[i].0.clone());
                        proof {
                            assert(seq_views(missing@) =~= seq_views(missing@.drop_last()).push(
                                missing@.last()@,
                            ));
                        }
                    },
                }
            },
            Err(_) => {
                return Err(AirportsRouteError::StoreFault);
            },
        }
        i += 1;
    }
    proof {
        assert(all.take(all.len() as int) =~= all);
    }
    if missing.len() > 0 {
        assert(seq_views(missing@).len() == missing@.len());
        return Err(AirportsRouteError::MissingAirports(missing));
    }
    assert(seq_views(missing@).len() == 0);
    Ok(airports)
}

} // verus!
