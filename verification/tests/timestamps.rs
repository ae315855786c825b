use tickflow::time::{
    GammaDateError, GammaMarketDates, parse_timestamp, parse_timestamp_opt,
};

#[test]
fn parse_timestamp_reads_known_instants() {
    assert_eq!(parse_timestamp("1970-01-01T00:00:00Z"), Ok(0));
    assert_eq!(parse_timestamp("2024-01-01T10:00:00Z"), Ok(1_704_103_200_000_000));
    assert_eq!(
        parse_timestamp("2024-01-01T10:00:00.250Z"),
        Ok(1_704_103_200_250_000)
    );
    assert_eq!(
        parse_timestamp("1996-12-19T16:39:57-08:00"),
        Ok(851_042_397_000_000)
    );
}

#[test]
fn parse_timestamp_rejects_malformed_text() {
    assert!(parse_timestamp("").is_err());
    assert!(parse_timestamp("2024-01-01").is_err());
    assert!(parse_timestamp("not a date").is_err());
    assert!(parse_timestamp("2024-13-01T00:00:00Z").is_err());
}

#[test]
fn parse_timestamp_opt_swallows_absent_and_malformed_text() {
    assert_eq!(parse_timestamp_opt(None), None);
    assert_eq!(parse_timestamp_opt(Some("still not a date")), None);
    assert_eq!(
        parse_timestamp_opt(Some("2024-01-01T10:00:00Z")),
        Some(1_704_103_200_000_000)
    );
}

fn good_dates() -> GammaMarketDates {
    GammaMarketDates {
        end_date: "2025-12-31T00:00:00Z".to_string(),
        start_date: "2024-01-01T10:00:00Z".to_string(),
        created_at: "2024-01-01T10:00:00.250Z".to_string(),
        updated_at: "1996-12-19T16:39:57-08:00".to_string(),
        accepting_orders_timestamp: Some("1970-01-01T00:00:00Z".to_string()),
    }
}

#[test]
fn gamma_dates_resolve_when_all_required_fields_parse() {
    let resolved = good_dates().resolve().expect("all dates are valid");
    assert_eq!(resolved.start_date, 1_704_103_200_000_000);
    assert_eq!(resolved.created_at, 1_704_103_200_250_000);
    assert_eq!(resolved.updated_at, 851_042_397_000_000);
    assert_eq!(resolved.accepting_orders_timestamp, Some(0));
}

#[test]
fn gamma_dates_name_the_first_malformed_required_field() {
    let mut dates = good_dates();
    dates.end_date = "oops".to_string();
    assert_eq!(dates.resolve(), Err(GammaDateError::InvalidEndDate));

    let mut dates = good_dates();
    dates.start_date = "oops".to_string();
    assert_eq!(dates.resolve(), Err(GammaDateError::InvalidStartDate));

    let mut dates = good_dates();
    dates.created_at = "oops".to_string();
    assert_eq!(dates.resolve(), Err(GammaDateError::InvalidCreatedAt));

    let mut dates = good_dates();
    dates.updated_at = "oops".to_string();
    assert_eq!(dates.resolve(), Err(GammaDateError::InvalidUpdatedAt));
}

#[test]
fn gamma_optional_date_never_fails_the_row() {
    let mut dates = good_dates();
    dates.accepting_orders_timestamp = Some("oops".to_string());
    let resolved = dates.resolve().expect("optional date must not fail the row");
    assert_eq!(resolved.accepting_orders_timestamp, None);

    let mut dates = good_dates();
    dates.accepting_orders_timestamp = None;
    let resolved = dates.resolve().unwrap();
    assert_eq!(resolved.accepting_orders_timestamp, None);
}
