use telemetry_csv::{
    build_query, parse_date, parse_series, validate, SeriesName, ValidationError,
    DEFAULT_DECIMATION,
};

fn all_series() -> [(SeriesName, &'static str); 13] {
    [
    (SeriesName::Charge, "charge"),
    (SeriesName::TensionBat, "tension_bat"),
    (SeriesName::TensionPv1, "tension_pv1"),
    (SeriesName::TensionPv2, "tension_pv2"),
    (SeriesName::Temperature, "temperature"),
    (SeriesName::CourantPv1, "courant_pv1"),
    (SeriesName::CourantPv2, "courant_pv2"),
    (SeriesName::EntreeEnergie24h, "entree_energie_24h"),
    (SeriesName::SortieEnergie24h, "sortie_energie_24h"),
    (SeriesName::CourantEntreeAppareil, "courant_entree_appareil"),
    (SeriesName::CourantChargeTotal, "courant_charge_total"),
    (SeriesName::CourantConsommateur, "courant_consommateur"),
    (SeriesName::CourantDechargeTotal, "courant_decharge_total"),
    ]
}

#[test]
fn every_allow_listed_series_parses() {
    for (series, name) in all_series() {
        assert_eq!(parse_series(name), Some(series));
        let req = validate(Some(name), None, None, None).unwrap();
        assert_eq!(req.series, series);
    }
}

#[test]
fn sql_metacharacters_are_rejected() {
    assert_eq!(parse_series("charge;DROP TABLE"), None);
    assert_eq!(
        validate(Some("charge;DROP TABLE"), None, None, None),
        Err(ValidationError::BadSeries)
    );
}

#[test]
fn path_traversal_is_rejected() {
    assert_eq!(
        validate(Some("../etc/passwd"), None, None, None),
        Err(ValidationError::BadSeries)
    );
}

#[test]
fn empty_series_is_rejected() {
    assert_eq!(validate(Some(""), None, None, None), Err(ValidationError::BadSeries));
}

#[test]
fn mixed_case_series_is_rejected() {
    assert_eq!(parse_series("Charge"), None);
    assert_eq!(parse_series("CHARGE"), None);
    assert_eq!(validate(Some("Charge"), None, None, None), Err(ValidationError::BadSeries));
}

#[test]
fn unlisted_column_is_rejected() {
    assert_eq!(validate(Some("id"), None, None, None), Err(ValidationError::BadSeries));
    assert_eq!(validate(Some("erreur_crc16"), None, None, None), Err(ValidationError::BadSeries));
}

#[test]
fn absent_parameters_take_defaults() {
    let req = validate(None, None, None, None).unwrap();
    assert_eq!(req.series, SeriesName::Charge);
    assert_eq!(req.decimation, DEFAULT_DECIMATION as u32);
    assert_eq!((req.start.year, req.start.month, req.start.day), (2024, 1, 1));
    assert_eq!((req.stop.year, req.stop.month, req.stop.day), (3000, 1, 1));
}

#[test]
fn zero_decimation_is_rejected() {
    assert_eq!(validate(None, Some(0), None, None), Err(ValidationError::BadDecimation));
}

#[test]
fn negative_decimation_is_rejected() {
    assert_eq!(validate(None, Some(-7), None, None), Err(ValidationError::BadDecimation));
}

#[test]
fn positive_decimation_is_kept() {
    let req = validate(None, Some(1), None, None).unwrap();
    assert_eq!(req.decimation, 1);
    let req = validate(None, Some(250), None, None).unwrap();
    assert_eq!(req.decimation, 250);
}

#[test]
fn well_formed_dates_parse() {
    let d = parse_date("2024-06-30").unwrap();
    assert_eq!((d.year, d.month, d.day), (2024, 6, 30));
    let req = validate(None, None, Some("2023-11-05"), Some("2024-02-29")).unwrap();
    assert_eq!((req.start.year, req.start.month, req.start.day), (2023, 11, 5));
    assert_eq!((req.stop.year, req.stop.month, req.stop.day), (2024, 2, 29));
}

#[test]
fn malformed_dates_are_rejected() {
    for bad in [
        "2024-1-1",
        "24-01-01",
        "2024/01/01",
        "01-01-2024",
        "2024-01-01 ",
        " 2024-01-01",
        "2024-01-0a",
        "",
        "yesterday",
    ] {
        assert_eq!(parse_date(bad), None, "{bad:?} should not parse");
        assert_eq!(
            validate(None, None, Some(bad), None),
            Err(ValidationError::BadStartDate),
            "{bad:?} should be refused as a start date"
        );
    }
}

#[test]
fn impossible_calendar_days_are_rejected() {
    for bad in ["2024-13-01", "2024-00-10", "2024-04-31", "2024-02-30", "2023-02-29", "2024-05-00"]
    {
        assert_eq!(parse_date(bad), None, "{bad:?} names no real day");
    }
    // A leap day on a leap year is a real day.
    assert!(parse_date("2024-02-29").is_some());
    assert!(parse_date("2000-02-29").is_some());
    // A century year off the 400-year rule is not a leap year.
    assert_eq!(parse_date("1900-02-29"), None);
}

#[test]
fn bad_stop_date_names_its_error() {
    assert_eq!(
        validate(None, None, Some("2024-01-01"), Some("2024-02-30")),
        Err(ValidationError::BadStopDate)
    );
}

#[test]
fn first_bad_input_names_the_error() {
    // Series is checked before decimation, decimation before the dates.
    assert_eq!(
        validate(Some("nope"), Some(0), Some("bad"), Some("bad")),
        Err(ValidationError::BadSeries)
    );
    assert_eq!(
        validate(Some("charge"), Some(0), Some("bad"), Some("bad")),
        Err(ValidationError::BadDecimation)
    );
    assert_eq!(
        validate(Some("charge"), Some(1), Some("bad"), Some("bad")),
        Err(ValidationError::BadStartDate)
    );
}

#[test]
fn reversed_range_is_accepted_by_validation() {
    // A reversed range is a valid request that selects nothing.
    let req = validate(None, None, Some("2025-01-01"), Some("2024-01-01")).unwrap();
    assert_eq!((req.start.year, req.stop.year), (2025, 2024));
}

#[test]
fn query_text_for_charge_is_exact() {
    let q = build_query(SeriesName::Charge);
    assert_eq!(
        q,
        "SELECT servdate, charge FROM battery WHERE id % $1 = 0 AND erreur_crc16 = FALSE \
         AND servdate >= $2 AND servdate < $3 + INTERVAL '1 day' ORDER BY id ASC;"
    );
}

#[test]
fn query_text_names_exactly_the_requested_column() {
    for (series, name) in all_series() {
        let q = build_query(series);
        let expected = format!(
            "SELECT servdate, {name} FROM battery WHERE id % $1 = 0 AND erreur_crc16 = FALSE \
             AND servdate >= $2 AND servdate < $3 + INTERVAL '1 day' ORDER BY id ASC;"
        );
        assert_eq!(q, expected);
        // No other allow-listed column occurs in the statement.
        for (_, other) in all_series() {
            if other != name {
                assert!(
                    !q.contains(&format!(" {other} ")),
                    "query for {name} must not name {other}"
                );
            }
        }
    }
}
