use amerinth::client::expiry_timestamp;
use amerinth::{build_uri, Modrinth, ModrinthError, UserAgent};

#[test]
fn user_agent_render_full() {
    let ua = UserAgent::builder("amerinth")
        .version("0.0.0")
        .author("getamethyst")
        .contact("playamethyst.com")
        .build();
    assert_eq!(ua.render(), "getamethyst/amerinth/0.0.0 (playamethyst.com)");
}

#[test]
fn user_agent_render_without_contact() {
    let ua = UserAgent::builder("amerinth")
        .version("0.0.0")
        .author("getamethyst")
        .build();
    assert_eq!(ua.render(), "getamethyst/amerinth/0.0.0");
}

#[test]
fn user_agent_render_only_project_name() {
    let ua = UserAgent::builder("amerinth").build();
    assert_eq!(ua.render(), "amerinth");
}

#[test]
fn user_agent_render_version_only() {
    let ua = UserAgent::builder("tool").version("1.2.3").build();
    assert_eq!(ua.render(), "tool/1.2.3");
}

#[test]
fn build_uri_production() {
    assert_eq!(
        build_uri(false, "/statistics"),
        "https://api.modrinth.com/v2/statistics"
    );
}

#[test]
fn build_uri_staging() {
    assert_eq!(
        build_uri(true, "/statistics"),
        "https://staging-api.modrinth.com/v2/statistics"
    );
}

#[test]
fn pat_expires_rejects_month_zero() {
    let client = Modrinth::new(None);
    match client.pat_expires("token".to_string(), 1, 0, 2024) {
        Err(ModrinthError::Expiration(1, 0, 2024)) => {}
        _ => panic!("month 0 must be rejected with the offending triple"),
    }
}

#[test]
fn pat_expires_rejects_month_thirteen() {
    let client = Modrinth::new(None);
    assert!(matches!(
        client.pat_expires("token".to_string(), 5, 13, 2024),
        Err(ModrinthError::Expiration(5, 13, 2024))
    ));
}

#[test]
fn pat_expires_rejects_february_thirtieth() {
    let client = Modrinth::new(None);
    assert!(matches!(
        client.pat_expires("token".to_string(), 30, 2, 2023),
        Err(ModrinthError::Expiration(30, 2, 2023))
    ));
}

#[test]
fn pat_expires_rejects_day_thirty_two() {
    let client = Modrinth::new(None);
    assert!(matches!(
        client.pat_expires("token".to_string(), 32, 1, 2024),
        Err(ModrinthError::Expiration(32, 1, 2024))
    ));
}

#[test]
fn pat_expires_rejects_century_non_leap_year() {
    let client = Modrinth::new(None);
    assert!(matches!(
        client.pat_expires("token".to_string(), 29, 2, 1900),
        Err(ModrinthError::Expiration(29, 2, 1900))
    ));
}

#[test]
fn pat_expires_accepts_leap_days() {
    let client = Modrinth::new(None);
    let client = client
        .pat_expires("token".to_string(), 29, 2, 2000)
        .expect("2000-02-29 is a real date")
        .logout();
    client
        .pat_expires("token".to_string(), 29, 2, 2024)
        .expect("2024-02-29 is a real date");
}

#[test]
fn expiry_timestamp_exact_values() {
    assert_eq!(expiry_timestamp(1, 1, 1970), Some(86_399));
    assert_eq!(expiry_timestamp(29, 2, 2000), Some(951_868_799));
    assert_eq!(expiry_timestamp(31, 12, 2024), Some(1_735_689_599));
    assert_eq!(expiry_timestamp(30, 2, 2000), None);
}

#[test]
fn token_validity_ends_exactly_at_end_of_day() {
    let client = Modrinth::new(None)
        .pat_expires("token".to_string(), 29, 2, 2000)
        .expect("2000-02-29 is a real date");
    // expiry instant is 2000-02-29 23:59:59 UTC == 951868799
    assert!(client.valid_at(951_868_798));
    assert!(!client.valid_at(951_868_799));
    assert!(!client.valid_at(951_868_800));
}

#[test]
fn token_without_expiry_is_valid_indefinitely() {
    let client = Modrinth::new(None).pat("token".to_string());
    assert!(client.is_valid());
    assert!(client.valid_at(i64::MAX));
}

#[test]
fn request_parts_of_unauthenticated_client() {
    let client = Modrinth::new(None);
    let parts = client
        .request_parts_at("/statistics", None, false, 0)
        .expect("a public endpoint needs no credentials");
    assert_eq!(parts.url, "https://api.modrinth.com/v2/statistics");
    assert_eq!(parts.user_agent, "getamethyst/amerinth/0.1.0 (playamethyst.com)");
    assert!(parts.query.is_none());
    assert!(parts.authorization.is_none());
}

#[test]
fn request_parts_against_staging_host() {
    let ua = UserAgent::builder("example").build();
    let client = Modrinth::staging(Some(ua));
    let parts = client
        .request_parts_at("/statistics", None, false, 0)
        .expect("a public endpoint needs no credentials");
    assert_eq!(parts.url, "https://staging-api.modrinth.com/v2/statistics");
    assert_eq!(parts.user_agent, "example");
}

#[test]
fn request_parts_attach_the_raw_token() {
    let client = Modrinth::new(None).pat("mrp_SECRET-REDACTED".to_string());
    let parts = client
        .request_parts_at("/user", None, true, 0)
        .expect("a valid token authorizes the request");
    // no `Bearer ` prefix, per the Modrinth API convention
    assert_eq!(parts.authorization.as_deref(), Some("mrp_SECRET-REDACTED"));
}

#[test]
fn auth_requiring_endpoint_fails_unauthorized_before_sending() {
    let client = Modrinth::new(None);
    assert!(matches!(
        client.request_parts_at("/user", None, true, 0),
        Err(ModrinthError::Unauthorized)
    ));
}

#[test]
fn expired_token_fails_unauthorized_on_every_endpoint() {
    let client = Modrinth::new(None)
        .pat_expires("token".to_string(), 1, 1, 2020)
        .expect("2020-01-01 is a real date");
    // 2021-01-01 00:00:00 UTC is past the expiry instant
    assert!(matches!(
        client.request_parts_at("/statistics", None, false, 1_609_459_200),
        Err(ModrinthError::Unauthorized)
    ));
}

#[test]
fn logout_discards_credentials() {
    let client = Modrinth::new(None).pat("token".to_string()).logout();
    let parts = client
        .request_parts_at("/statistics", None, false, 0)
        .expect("a public endpoint needs no credentials");
    assert!(parts.authorization.is_none());
}

#[test]
fn error_messages_are_not_empty() {
    let errors = vec![
        ModrinthError::HttpBuild("x".to_string()),
        ModrinthError::NotFound {
            resource: "user",
            id: "nobody".to_string(),
        },
        ModrinthError::Unauthorized,
        ModrinthError::Expiration(30, 2, 2023),
        ModrinthError::Client("x".to_string()),
        ModrinthError::Parse("x".to_string()),
    ];
    for e in errors {
        assert!(!e.message().is_empty());
    }
}
