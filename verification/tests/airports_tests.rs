use airport_distance::airports::{
    AirportCodeRow, AirportsRepository, DummyAirportsRepository, GlobalAirportsRepository,
    StoreFault, select_unique_iatas,
};
use airport_distance::models::{Airport, FloatBits};

fn airport(id: u32, iata: &str, name: &str) -> Airport {
    Airport {
        id,
        icao_code: format!("X{}", iata),
        iata_code: iata.to_string(),
        name: name.to_string(),
        city: "Town".to_string(),
        country: "Land".to_string(),
        lat_deg: 0,
        lat_min: 0,
        lat_sec: 0,
        lat_dir: "N".to_string(),
        lon_deg: 0,
        lon_min: 0,
        lon_sec: 0,
        lon_dir: "E".to_string(),
        altitude: 0,
        lat_decimal: FloatBits { bits: (51.47f64).to_bits() },
        lon_decimal: FloatBits { bits: (-0.4543f64).to_bits() },
    }
}

fn row(iata: &str, name: &str) -> AirportCodeRow {
    AirportCodeRow { iata_code: iata.to_string(), name: name.to_string() }
}

#[test]
fn test_select_unique_iatas_drops_duplicates_and_sentinel_rows() {
    let rows = vec![
        row("AAA", "First"),
        row("BBB", "N/A"),
        row("AAA", "First again"),
        row("CCC", "Third"),
        row("CCC", "Third again"),
    ];
    let codes = select_unique_iatas(&rows);
    assert_eq!(codes, vec!["AAA".to_string(), "CCC".to_string()]);
}

#[test]
fn test_select_unique_iatas_keeps_code_with_one_usable_row() {
    // The code's first row is the unusable sentinel, but a later usable row
    // backs it, so it stays; a code with only sentinel rows never appears.
    let rows = vec![row("DDD", "N/A"), row("DDD", "Real name"), row("EEE", "N/A")];
    let codes = select_unique_iatas(&rows);
    assert_eq!(codes, vec!["DDD".to_string()]);
}

#[test]
fn test_dummy_repository_finds_first_matching_record() {
    let repo = DummyAirportsRepository::new(vec![
        airport(1, "AAA", "First"),
        airport(2, "BBB", "Second"),
        airport(3, "AAA", "Shadowed"),
    ]);
    let found = repo.fetch_airport_by_iata("AAA").expect("dummy never fails");
    let found = found.expect("AAA exists");
    assert_eq!(found.id, 1);
    assert_eq!(found.name, "First");
    let missing = repo.fetch_airport_by_iata("ZZZ").expect("dummy never fails");
    assert!(missing.is_none());
}

#[test]
fn test_dummy_repository_lists_each_code_once() {
    let repo = DummyAirportsRepository::new(vec![
        airport(1, "AAA", "First"),
        airport(2, "BBB", "Second"),
        airport(3, "AAA", "Again"),
    ]);
    let codes = repo.unique_airport_iatas().expect("dummy never fails");
    assert_eq!(codes, vec!["AAA".to_string(), "BBB".to_string()]);
}

#[test]
fn test_unknown_code_resolved_twice_queries_store_once() {
    let mut repo = GlobalAirportsRepository::new();
    // First resolution: a miss, so the caller reads the store, which finds
    // nothing; "not found" is memoized.
    assert_eq!(repo.lookup_airport("XXX"), None);
    let resolved = repo.memoize_airport("XXX", Ok(None)).expect("store read succeeded");
    assert_eq!(resolved, None);
    // Second resolution: the memoized "not found" answers without a store
    // read, and the result is None both times.
    assert_eq!(repo.lookup_airport("XXX"), Some(None));
}

#[test]
fn test_populated_entry_survives_unreachable_store() {
    let mut repo = GlobalAirportsRepository::new();
    let record = airport(7, "LHR", "Heathrow");
    let resolved = repo
        .memoize_airport("LHR", Ok(Some(record.clone())))
        .expect("store read succeeded");
    assert_eq!(resolved, Some(record.clone()));
    // The store is now unreachable; the populated entry still answers.
    assert_eq!(repo.lookup_airport("LHR"), Some(Some(record)));
}

#[test]
fn test_store_fault_populates_nothing() {
    let mut repo = GlobalAirportsRepository::new();
    let result = repo.memoize_airport("JFK", Err("connection reset".to_string()));
    assert_eq!(result, Err(StoreFault("connection reset".to_string())));
    // The fault left no entry behind: the next resolution is a miss again.
    assert_eq!(repo.lookup_airport("JFK"), None);
}

#[test]
fn test_sentinel_record_resolves_to_not_found() {
    let mut repo = GlobalAirportsRepository::new();
    let unusable = airport(9, "QQQ", "N/A");
    let resolved = repo.memoize_airport("QQQ", Ok(Some(unusable))).expect("store read succeeded");
    assert_eq!(resolved, None);
    assert_eq!(repo.lookup_airport("QQQ"), Some(None));
}

#[test]
fn test_iatas_listing_is_memoized() {
    let mut repo = GlobalAirportsRepository::new();
    assert_eq!(repo.lookup_iatas(), None);
    let rows = vec![row("AAA", "First"), row("AAA", "Again"), row("BBB", "N/A"), row("CCC", "C")];
    let listing = repo.memoize_iatas(Ok(rows)).expect("store read succeeded");
    assert_eq!(listing, vec!["AAA".to_string(), "CCC".to_string()]);
    assert_eq!(repo.lookup_iatas(), Some(vec!["AAA".to_string(), "CCC".to_string()]));
}

#[test]
fn test_iatas_store_fault_populates_nothing() {
    let mut repo = GlobalAirportsRepository::new();
    let result = repo.memoize_iatas(Err("disk gone".to_string()));
    assert_eq!(result, Err(StoreFault("disk gone".to_string())));
    assert_eq!(repo.lookup_iatas(), None);
}

#[test]
fn test_caches_are_independent() {
    let mut repo = GlobalAirportsRepository::new();
    repo.memoize_iatas(Ok(vec![row("AAA", "First")])).expect("store read succeeded");
    // Populating the listing does not resolve any single code.
    assert_eq!(repo.lookup_airport("AAA"), None);
    let record = airport(1, "AAA", "First");
    repo.memoize_airport("AAA", Ok(Some(record))).expect("store read succeeded");
    // And resolving a code leaves the listing as it was.
    assert_eq!(repo.lookup_iatas(), Some(vec!["AAA".to_string()]));
}
