use airport_distance::distance::{
    CalculatorConfig, DistanceCalculationError, DistanceCalculator, DistanceCalculatorFactory,
};
use airport_distance::models::{Airport, Coordinates, Datum, FloatBits, Formula};
use airport_distance::route::{
    AirportDistanceRequest, AirportsRouteError, CoordinatesDistanceRequest, RouteError,
    calculate_distances, calculate_route, collect_route_airports,
};

fn coords(latitude: f64, longitude: f64) -> Coordinates {
    Coordinates::new(
        FloatBits { bits: latitude.to_bits() },
        FloatBits { bits: longitude.to_bits() },
    )
}

fn km(bits: FloatBits) -> f64 {
    f64::from_bits(bits.bits)
}

/// A spherical great-circle calculator over the radius the library's
/// factory configured, used to drive the aggregation with real values.
struct GreatCircleCalculator {
    radius_km: f64,
}

impl GreatCircleCalculator {
    fn from_config(config: CalculatorConfig) -> Self {
        match config {
            CalculatorConfig::GreatCircle { earth_radius_in_nanometers } => {
                GreatCircleCalculator { radius_km: earth_radius_in_nanometers as f64 / 1e12 }
            }
            _ => panic!("expected a great-circle configuration"),
        }
    }
}

impl DistanceCalculator for GreatCircleCalculator {
    fn calculate_distance(
        &self,
        from: &Coordinates,
        to: &Coordinates,
    ) -> Result<FloatBits, DistanceCalculationError> {
        let lat1 = f64::from_bits(from.latitude.bits).to_radians();
        let lon1 = f64::from_bits(from.longitude.bits).to_radians();
        let lat2 = f64::from_bits(to.latitude.bits).to_radians();
        let lon2 = f64::from_bits(to.longitude.bits).to_radians();
        let d_lon = (lon2 - lon1).abs();
        let central_angle =
            (lat1.sin() * lat2.sin() + lat1.cos() * lat2.cos() * d_lon.cos()).acos();
        Ok(FloatBits { bits: (self.radius_km * central_angle).to_bits() })
    }
}

/// Returns a distinct marker for each call so a test can see which leg got
/// which result, and fails on a chosen leg index.
struct ScriptedCalculator {
    fail_on_call: Option<usize>,
    calls: std::cell::Cell<usize>,
}

impl ScriptedCalculator {
    fn new(fail_on_call: Option<usize>) -> Self {
        ScriptedCalculator { fail_on_call, calls: std::cell::Cell::new(0) }
    }
}

impl DistanceCalculator for ScriptedCalculator {
    fn calculate_distance(
        &self,
        _from: &Coordinates,
        _to: &Coordinates,
    ) -> Result<FloatBits, DistanceCalculationError> {
        let call = self.calls.get();
        self.calls.set(call + 1);
        if Some(call) == self.fail_on_call {
            Err(DistanceCalculationError(format!("leg {} failed", call)))
        } else {
            Ok(FloatBits { bits: 1000 + call as u64 })
        }
    }
}

fn airport(id: u32, iata: &str, name: &str, lat: f64, lon: f64) -> Airport {
    Airport {
        id,
        icao_code: format!("X{}", iata),
        iata_code: iata.to_string(),
        name: name.to_string(),
        city: "Town".to_string(),
        country: "Land".to_string(),
        lat_deg: 0,
        lat_min: 0,
        lat_sec: 0,
        lat_dir: "N".to_string(),
        lon_deg: 0,
        lon_min: 0,
        lon_sec: 0,
        lon_dir: "E".to_string(),
        altitude: 0,
        lat_decimal: FloatBits { bits: lat.to_bits() },
        lon_decimal: FloatBits { bits: lon.to_bits() },
    }
}

#[test]
fn test_route_request_validation() {
    let one_point = CoordinatesDistanceRequest {
        route: vec![coords(0.0, 0.0)],
        formula: Formula::default(),
        datum: Datum::default(),
    };
    assert_eq!(one_point.validate(), Err(RouteError::InvalidRoute));
    let two_points = CoordinatesDistanceRequest {
        route: vec![coords(0.0, 0.0), coords(0.0, 1.0)],
        formula: Formula::default(),
        datum: Datum::default(),
    };
    assert_eq!(two_points.validate(), Ok(()));
    let one_airport = AirportDistanceRequest {
        route: vec!["LHR".to_string()],
        formula: Formula::default(),
        datum: Datum::default(),
    };
    assert_eq!(one_airport.validate(), Err(RouteError::InvalidRoute));
}

#[test]
fn test_calculate_route_rejects_short_routes() {
    let calculator = ScriptedCalculator::new(None);
    let empty: Vec<Coordinates> = vec![];
    assert_eq!(calculate_route(&empty, &calculator), Err(RouteError::InvalidRoute));
    let single = vec![coords(1.0, 2.0)];
    assert_eq!(calculate_route(&single, &calculator), Err(RouteError::InvalidRoute));
    assert_eq!(calculator.calls.get(), 0);
}

#[test]
fn test_calculate_route_pairs_consecutive_points_in_order() {
    let calculator = ScriptedCalculator::new(None);
    let points = vec![coords(0.0, 0.0), coords(0.0, 1.0), coords(1.0, 1.0), coords(2.0, 4.0)];
    let legs = calculate_route(&points, &calculator).expect("route should succeed");
    assert_eq!(legs.len(), 3);
    for (i, leg) in legs.iter().enumerate() {
        assert_eq!(leg.from, points[i]);
        assert_eq!(leg.to, points[i + 1]);
        assert_eq!(leg.distance, FloatBits { bits: 1000 + i as u64 });
    }
}

#[test]
fn test_calculate_route_fails_whole_route_on_leg_failure() {
    let calculator = ScriptedCalculator::new(Some(1));
    let points = vec![coords(0.0, 0.0), coords(0.0, 1.0), coords(1.0, 1.0), coords(2.0, 4.0)];
    let result = calculate_route(&points, &calculator);
    assert_eq!(
        result,
        Err(RouteError::Calculation(DistanceCalculationError("leg 1 failed".to_string())))
    );
    // The failing leg stops the iteration: the third leg is never attempted.
    assert_eq!(calculator.calls.get(), 2);
}

#[test]
fn test_great_circle_route_reference_values() {
    let config = DistanceCalculatorFactory::create(&Formula::GreatCircle, &Datum::WGS84);
    let calculator = GreatCircleCalculator::from_config(config);
    let points = vec![coords(0.0, 0.0), coords(0.0, 1.0), coords(1.0, 1.0), coords(2.0, 4.0)];
    let legs = calculate_route(&points, &calculator).expect("route should succeed");
    assert_eq!(legs.len(), 3);
    assert!((km(legs[0].distance) - 111.3194907).abs() < 1e-6);
    assert!((km(legs[1].distance) - 111.3194907).abs() < 1e-6);
    assert!((km(legs[2].distance) - 351.9105211).abs() < 1e-6);
    let total: f64 = legs.iter().map(|leg| km(leg.distance)).sum();
    assert!((total - 574.5495025).abs() < 1e-6);
}

#[test]
fn test_calculate_distances_annotates_airport_codes() {
    let calculator = ScriptedCalculator::new(None);
    let route = vec![
        airport(1, "AAA", "First", 0.0, 0.0),
        airport(2, "BBB", "Second", 0.0, 1.0),
        airport(3, "CCC", "Third", 1.0, 1.0),
    ];
    let legs = calculate_distances(&route, &calculator).expect("route should succeed");
    assert_eq!(legs.len(), 2);
    assert_eq!(legs[0].from.iata_code, "AAA");
    assert_eq!(legs[0].to.iata_code, "BBB");
    assert_eq!(legs[1].from.iata_code, "BBB");
    assert_eq!(legs[1].to.iata_code, "CCC");
    assert_eq!(legs[0].from.coordinates, coords(0.0, 0.0));
    assert_eq!(legs[1].to.coordinates, coords(1.0, 1.0));
}

#[test]
fn test_calculate_distances_propagates_leg_failure_verbatim() {
    let calculator = ScriptedCalculator::new(Some(0));
    let route = vec![airport(1, "AAA", "First", 0.0, 0.0), airport(2, "BBB", "Second", 0.5, 179.7)];
    let result = calculate_distances(&route, &calculator);
    assert_eq!(result, Err(DistanceCalculationError("leg 0 failed".to_string())));
}

#[test]
fn test_collect_route_airports_resolves_in_route_order() {
    let results = vec![
        ("AAA".to_string(), Ok(Some(airport(1, "AAA", "First", 0.0, 0.0)))),
        ("BBB".to_string(), Ok(Some(airport(2, "BBB", "Second", 0.0, 1.0)))),
    ];
    let airports = collect_route_airports(&results).expect("all codes resolve");
    assert_eq!(airports.len(), 2);
    assert_eq!(airports[0].iata_code, "AAA");
    assert_eq!(airports[1].iata_code, "BBB");
}

#[test]
fn test_collect_route_airports_reports_all_missing_codes() {
    let results = vec![
        ("AAA".to_string(), Ok(Some(airport(1, "AAA", "First", 0.0, 0.0)))),
        ("XXX".to_string(), Ok(None)),
        ("YYY".to_string(), Ok(None)),
    ];
    let result = collect_route_airports(&results);
    assert_eq!(
        result,
        Err(AirportsRouteError::MissingAirports(vec!["XXX".to_string(), "YYY".to_string()]))
    );
}

#[test]
fn test_collect_route_airports_store_fault_wins_over_missing() {
    let results = vec![
        ("XXX".to_string(), Ok(None)),
        ("BBB".to_string(), Err("connection reset".to_string())),
    ];
    let result = collect_route_airports(&results);
    assert_eq!(result, Err(AirportsRouteError::StoreFault));
}
