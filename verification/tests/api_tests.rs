use amerinth::api::badges::{Badge, Badges};
use amerinth::api::donation::DonationPlatform;
use amerinth::api::loader::{loaders_from_rows, Loader, LoaderRow};
use amerinth::api::misc::{forge_result, ForgeUpdates};
use amerinth::api::projects::{
    project_types_from_tags, side_types_from_tags, ProjectSide, ProjectType,
};
use amerinth::api::tags::{
    categories_from_rows, game_versions_from_rows, report_types_from_tags, CategoryHeader,
    CategoryRow, GameVersionRow, GameVersionType, ReportType,
};
use amerinth::api::users::{
    many_users_response, user_from_row, AuthProviders, User, UserRole, UserRow,
};
use amerinth::api::{finish, FetchFailure};
use amerinth::{Modrinth, ModrinthError};

fn sample_user(username: &str) -> User {
    User {
        username: username.to_string(),
        name: None,
        email: None,
        bio: None,
        payout_data: None,
        id: "abcd1234".to_string(),
        avatar_url: "https://cdn.modrinth.com/avatar.png".to_string(),
        created: 1_600_000_000,
        role: UserRole::Developer,
        badges: Badges(vec![]),
        auth_providers: None,
        email_verified: None,
        has_password: None,
        has_totp: None,
    }
}

#[test]
fn badge_byte_with_two_bits_decodes_in_declaration_order() {
    let decoded = Badges::decode(0b0010_0100);
    assert_eq!(
        decoded.0,
        vec![Badge::EarlyRespackAdopter, Badge::Contributor]
    );
}

#[test]
fn badge_byte_with_unused_bit_decodes_empty() {
    assert_eq!(Badges::decode(0b0000_0001).0, vec![]);
}

#[test]
fn badge_byte_with_all_bits_decodes_every_badge() {
    assert_eq!(
        Badges::decode(0xFF).0,
        vec![
            Badge::EarlyModpackAdopter,
            Badge::EarlyRespackAdopter,
            Badge::EarlyPluginAdopter,
            Badge::AlphaTester,
            Badge::Contributor,
            Badge::Translator,
        ]
    );
}

#[test]
fn unknown_loader_tag_falls_into_other_unchanged() {
    assert_eq!(
        Loader::from_tag("quilt-experimental"),
        Loader::Other("quilt-experimental".to_string())
    );
}

#[test]
fn known_loader_tags_parse() {
    assert_eq!(Loader::from_tag("fabric"), Loader::Fabric);
    assert_eq!(Loader::from_tag("legacy-fabric"), Loader::LegacyFabric);
    assert_eq!(Loader::from_tag("neoforge"), Loader::Neoforge);
}

#[test]
fn unknown_project_type_falls_into_other_unchanged() {
    assert_eq!(ProjectType::from_tag("mod"), ProjectType::Mod);
    assert_eq!(
        ProjectType::from_tag("firmware"),
        ProjectType::Other("firmware".to_string())
    );
}

#[test]
fn unknown_category_header_falls_into_other_unchanged() {
    assert_eq!(
        CategoryHeader::from_tag("performanceimpact"),
        CategoryHeader::PerformanceImpact
    );
    assert_eq!(
        CategoryHeader::from_tag("brand-new-header"),
        CategoryHeader::Other("brand-new-header".to_string())
    );
}

#[test]
fn donation_platform_known_short_tags_parse() {
    let p = DonationPlatform::from_entry("bmac", "whatever");
    assert_eq!(p, DonationPlatform::BuyMeACoffee);
    assert_eq!(p.name(), "Buy Me a Coffee");
    assert_eq!(DonationPlatform::from_entry("ko-fi", "x"), DonationPlatform::Kofi);
}

#[test]
fn donation_platform_unknown_short_tag_is_kept_verbatim() {
    let p = DonationPlatform::from_entry("liberapay", "Liberapay");
    assert_eq!(
        p,
        DonationPlatform::Undocumented {
            short: "liberapay".to_string(),
            name: "Liberapay".to_string(),
        }
    );
    assert_eq!(p.name(), "Liberapay");
}

#[test]
fn unknown_report_type_falls_into_other_unchanged() {
    assert_eq!(ReportType::from_tag("name-squatting"), ReportType::NameSquatting);
    assert_eq!(ReportType::from_tag("poor description"), ReportType::PoorDescription);
    assert_eq!(ReportType::from_tag("invalid metadata"), ReportType::InvalidMetadata);
    assert_eq!(ReportType::from_tag("other"), ReportType::Other("other".to_string()));
    assert_eq!(
        ReportType::from_tag("gossip"),
        ReportType::Other("gossip".to_string())
    );
}

#[test]
fn report_type_listing_survives_unknown_tags() {
    let raw = vec!["spam".to_string(), "gossip".to_string()];
    assert_eq!(
        report_types_from_tags(&raw),
        vec![ReportType::Spam, ReportType::Other("gossip".to_string())]
    );
}

#[test]
fn side_type_listing_rejects_unknown_tags() {
    let raw = vec!["required".to_string(), "optional".to_string()];
    assert_eq!(
        side_types_from_tags(&raw).expect("all sides are known"),
        vec![ProjectSide::Required, ProjectSide::Optional]
    );
    let bad = vec!["required".to_string(), "both".to_string()];
    assert!(matches!(
        side_types_from_tags(&bad),
        Err(ModrinthError::Parse(_))
    ));
}

#[test]
fn closed_enumerations_reject_unknown_tags() {
    assert_eq!(ProjectSide::from_tag("required"), Some(ProjectSide::Required));
    assert_eq!(ProjectSide::from_tag("both"), None);
    assert_eq!(GameVersionType::from_tag("snapshot"), Some(GameVersionType::Snapshot));
    assert_eq!(GameVersionType::from_tag("nightly"), None);
    assert_eq!(UserRole::from_tag("admin"), Some(UserRole::Admin));
    assert_eq!(UserRole::from_tag("owner"), None);
    assert_eq!(AuthProviders::from_tag("github"), Some(AuthProviders::GitHub));
    assert_eq!(AuthProviders::from_tag("myspace"), None);
}

#[test]
fn project_types_filter_drops_the_project_pseudo_type() {
    let raw = vec![
        "mod".to_string(),
        "project".to_string(),
        "shader".to_string(),
        "bundle".to_string(),
    ];
    let pts = project_types_from_tags(&raw);
    assert_eq!(
        pts.0,
        vec![
            ProjectType::Mod,
            ProjectType::Shader,
            ProjectType::Other("bundle".to_string()),
        ]
    );
}

#[test]
fn categories_reshape_into_keyed_entries() {
    let rows = vec![CategoryRow {
        name: "adventure".to_string(),
        icon: "<svg/>".to_string(),
        project_type: "mod".to_string(),
        header: "categories".to_string(),
    }];
    let out = categories_from_rows(&rows);
    assert_eq!(out.len(), 1);
    assert_eq!(out[0].0, "adventure");
    assert_eq!(out[0].1.icon, "<svg/>");
    assert_eq!(out[0].1.project_type, ProjectType::Mod);
    assert_eq!(out[0].1.header, CategoryHeader::Categories);
}

#[test]
fn game_versions_reshape_and_reject_unknown_type() {
    let rows = vec![GameVersionRow {
        version: "1.20.1".to_string(),
        version_type: "release".to_string(),
        date: 1_686_000_000,
        major: true,
    }];
    let out = game_versions_from_rows(&rows).expect("all version types are known");
    assert_eq!(out[0].0, "1.20.1");
    assert_eq!(out[0].1.version_type, GameVersionType::Release);
    assert_eq!(out[0].1.date, 1_686_000_000);
    assert!(out[0].1.major);

    let bad = vec![GameVersionRow {
        version: "1.21".to_string(),
        version_type: "nightly".to_string(),
        date: 0,
        major: false,
    }];
    assert!(matches!(
        game_versions_from_rows(&bad),
        Err(ModrinthError::Parse(_))
    ));
}

#[test]
fn loaders_reshape_with_filtered_project_types() {
    let rows = vec![LoaderRow {
        name: "fabric".to_string(),
        icon: "<svg/>".to_string(),
        supported_project_types: vec!["mod".to_string(), "project".to_string()],
    }];
    let out = loaders_from_rows(&rows);
    assert_eq!(out.len(), 1);
    assert_eq!(out[0].0, Loader::Fabric);
    assert_eq!(out[0].1.icon, "<svg/>");
    assert_eq!(out[0].1.project_types.0, vec![ProjectType::Mod]);
}

#[test]
fn keyed_listings_keep_one_entry_per_name_last_row_wins() {
    let rows = vec![
        CategoryRow {
            name: "adventure".to_string(),
            icon: "<old/>".to_string(),
            project_type: "mod".to_string(),
            header: "categories".to_string(),
        },
        CategoryRow {
            name: "decoration".to_string(),
            icon: "<svg/>".to_string(),
            project_type: "mod".to_string(),
            header: "categories".to_string(),
        },
        CategoryRow {
            name: "adventure".to_string(),
            icon: "<new/>".to_string(),
            project_type: "shader".to_string(),
            header: "features".to_string(),
        },
    ];
    let out = categories_from_rows(&rows);
    assert_eq!(out.len(), 2);
    assert_eq!(out[0].0, "adventure");
    assert_eq!(out[0].1.icon, "<new/>");
    assert_eq!(out[0].1.project_type, ProjectType::Shader);
    assert_eq!(out[0].1.header, CategoryHeader::Features);
    assert_eq!(out[1].0, "decoration");

    let rows = vec![
        GameVersionRow {
            version: "1.20.1".to_string(),
            version_type: "snapshot".to_string(),
            date: 1,
            major: false,
        },
        GameVersionRow {
            version: "1.20.1".to_string(),
            version_type: "release".to_string(),
            date: 2,
            major: true,
        },
    ];
    let out = game_versions_from_rows(&rows).expect("all version types are known");
    assert_eq!(out.len(), 1);
    assert_eq!(out[0].1.version_type, GameVersionType::Release);
    assert_eq!(out[0].1.date, 2);

    let rows = vec![
        LoaderRow {
            name: "fabric".to_string(),
            icon: "<old/>".to_string(),
            supported_project_types: vec!["mod".to_string()],
        },
        LoaderRow {
            name: "fabric".to_string(),
            icon: "<new/>".to_string(),
            supported_project_types: vec!["shader".to_string()],
        },
    ];
    let out = loaders_from_rows(&rows);
    assert_eq!(out.len(), 1);
    assert_eq!(out[0].0, Loader::Fabric);
    assert_eq!(out[0].1.icon, "<new/>");
    assert_eq!(out[0].1.project_types.0, vec![ProjectType::Shader]);
}

#[test]
fn list_query_matches_the_debug_form_exactly() {
    let client = Modrinth::new(None);
    let cases: Vec<Vec<String>> = vec![
        vec![],
        vec!["plain".to_string()],
        vec!["it's".to_string(), "a\"b".to_string(), "c\\d".to_string()],
        vec!["tab\tnl\ncr\rbell\x07".to_string()],
        vec!["del\x7fc1\u{9f}".to_string()],
    ];
    for users in cases {
        let parts = amerinth::api::users::users_request(&client, &users, 0).unwrap();
        let (_, value) = parts.query.unwrap();
        assert_eq!(value, format!("{:?}", users));
    }
}

#[test]
fn users_batch_query_uses_the_bracketed_list_form() {
    let client = Modrinth::new(None);
    let users = vec!["validuser".to_string(), "doesnotexist123".to_string()];
    let parts = amerinth::api::users::users_request(&client, &users, 0)
        .expect("a public endpoint needs no credentials");
    assert_eq!(parts.url, "https://api.modrinth.com/v2/users");
    let (name, value) = parts.query.expect("the id list is a query parameter");
    assert_eq!(name, "ids");
    assert_eq!(value, "[\"validuser\", \"doesnotexist123\"]");
}

#[test]
fn list_query_escapes_quotes_and_backslashes() {
    let client = Modrinth::new(None);
    let users = vec!["a\"b".to_string(), "c\\d".to_string()];
    let parts = amerinth::api::users::users_request(&client, &users, 0).unwrap();
    let (_, value) = parts.query.unwrap();
    assert_eq!(value, "[\"a\\\"b\", \"c\\\\d\"]");
}

#[test]
fn many_users_is_a_partial_success_mapping() {
    let requested = vec!["validuser".to_string(), "doesnotexist123".to_string()];
    let resolved = vec![sample_user("validuser")];
    let out = many_users_response(&requested, &resolved);
    assert_eq!(out.len(), 2);
    assert_eq!(out[0].0, "validuser");
    let hit = out[0].1.as_ref().expect("validuser resolves");
    assert_eq!(hit.username, "validuser");
    assert_eq!(hit.id, "abcd1234");
    assert_eq!(out[1].0, "doesnotexist123");
    assert!(out[1].1.is_none());
}

#[test]
fn many_users_takes_the_first_matching_record() {
    let requested = vec!["dup".to_string()];
    let mut first = sample_user("dup");
    first.id = "first".to_string();
    let mut second = sample_user("dup");
    second.id = "second".to_string();
    let out = many_users_response(&requested, &vec![first, second]);
    assert_eq!(out[0].1.as_ref().unwrap().id, "first");
}

#[test]
fn user_row_types_role_providers_and_badges() {
    let row = UserRow {
        username: "validuser".to_string(),
        name: Some("Valid User".to_string()),
        email: None,
        bio: None,
        payout_data: None,
        id: "abcd1234".to_string(),
        avatar_url: "https://cdn.modrinth.com/avatar.png".to_string(),
        created: 1_600_000_000,
        role: "admin".to_string(),
        badges: 0b0010_0100,
        auth_providers: Some(vec!["github".to_string(), "steam".to_string()]),
        email_verified: Some(true),
        has_password: Some(true),
        has_totp: Some(false),
    };
    let user = user_from_row(row).expect("all tags are known");
    assert_eq!(user.role, UserRole::Admin);
    assert_eq!(
        user.auth_providers,
        Some(vec![AuthProviders::GitHub, AuthProviders::Steam])
    );
    assert_eq!(
        user.badges.0,
        vec![Badge::EarlyRespackAdopter, Badge::Contributor]
    );
}

#[test]
fn user_row_with_unknown_role_fails_with_parse() {
    let mut row = plain_row();
    row.role = "superadmin".to_string();
    assert!(matches!(user_from_row(row), Err(ModrinthError::Parse(_))));
}

#[test]
fn user_row_with_unknown_provider_fails_with_parse() {
    let mut row = plain_row();
    row.auth_providers = Some(vec!["myspace".to_string()]);
    assert!(matches!(user_from_row(row), Err(ModrinthError::Parse(_))));
}

fn plain_row() -> UserRow {
    UserRow {
        username: "u".to_string(),
        name: None,
        email: None,
        bio: None,
        payout_data: None,
        id: "i".to_string(),
        avatar_url: "a".to_string(),
        created: 0,
        role: "developer".to_string(),
        badges: 0,
        auth_providers: None,
        email_verified: None,
        has_password: None,
        has_totp: None,
    }
}

#[test]
fn passthrough_endpoints_keep_the_failure_kind() {
    let ok: Result<u8, FetchFailure> = Ok(7);
    assert_eq!(finish(ok).unwrap(), 7);
    let transport: Result<u8, FetchFailure> =
        Err(FetchFailure::Transport("connection reset".to_string()));
    assert!(matches!(
        finish(transport),
        Err(ModrinthError::Client(m)) if m == "connection reset"
    ));
    let parse: Result<u8, FetchFailure> = Err(FetchFailure::Parse("bad shape".to_string()));
    assert!(matches!(
        finish(parse),
        Err(ModrinthError::Parse(m)) if m == "bad shape"
    ));
}

#[test]
fn single_failure_mode_endpoints_narrow_to_not_found() {
    let outcome: Result<ForgeUpdates, FetchFailure> =
        Err(FetchFailure::Transport("404".to_string()));
    match forge_result("sodium", outcome) {
        Err(ModrinthError::NotFound { resource, id }) => {
            assert_eq!(resource, "project");
            assert_eq!(id, "sodium");
        }
        _ => panic!("any failure must narrow to NotFound"),
    }
    let outcome: Result<amerinth::api::license::License, FetchFailure> =
        Err(FetchFailure::Parse("x".to_string()));
    match amerinth::api::license::license_result("MIT", outcome) {
        Err(ModrinthError::NotFound { resource, id }) => {
            assert_eq!(resource, "license");
            assert_eq!(id, "MIT");
        }
        _ => panic!("any failure must narrow to NotFound"),
    }
    let outcome: Result<User, FetchFailure> = Err(FetchFailure::Transport("x".to_string()));
    match amerinth::api::users::user_result("ghost", outcome) {
        Err(ModrinthError::NotFound { resource, id }) => {
            assert_eq!(resource, "user");
            assert_eq!(id, "ghost");
        }
        _ => panic!("any failure must narrow to NotFound"),
    }
}

#[test]
fn current_user_failures_narrow_to_unauthorized() {
    let outcome: Result<User, FetchFailure> = Err(FetchFailure::Transport("401".to_string()));
    assert!(matches!(
        amerinth::api::users::current_user_result(outcome),
        Err(ModrinthError::Unauthorized)
    ));
}

#[test]
fn current_user_request_rejects_an_expired_token() {
    let client = Modrinth::new(None)
        .pat_expires("token".to_string(), 1, 1, 2020)
        .expect("2020-01-01 is a real date");
    assert!(matches!(
        amerinth::api::users::current_user_request(&client, 1_609_459_200),
        Err(ModrinthError::Unauthorized)
    ));
    let parts = amerinth::api::users::current_user_request(&client, 0)
        .expect("the token is valid in the past");
    assert_eq!(parts.url, "https://api.modrinth.com/v2/user");
    assert_eq!(parts.authorization.as_deref(), Some("token"));
}

#[test]
fn endpoint_paths_are_exact() {
    let client = Modrinth::new(None);
    let parts = amerinth::api::misc::statistics_request(&client, 0).unwrap();
    assert_eq!(parts.url, "https://api.modrinth.com/v2/statistics");
    let parts = amerinth::api::misc::forge_request(&client, "sodium", 0).unwrap();
    assert_eq!(
        parts.url,
        "https://api.modrinth.com/v2/updates/sodium/forge_updates.json"
    );
    let parts = amerinth::api::license::license_request(&client, "LGPL-3.0-or-later", 0).unwrap();
    assert_eq!(
        parts.url,
        "https://api.modrinth.com/v2/tag/license/LGPL-3.0-or-later"
    );
    let parts = amerinth::api::users::user_request(&client, "validuser", 0).unwrap();
    assert_eq!(parts.url, "https://api.modrinth.com/v2/user/validuser");
    let parts = amerinth::api::tags::categories_request(&client, 0).unwrap();
    assert_eq!(parts.url, "https://api.modrinth.com/v2/tag/category");
    let parts = amerinth::api::tags::game_versions_request(&client, 0).unwrap();
    assert_eq!(parts.url, "https://api.modrinth.com/v2/tag/game_version");
    let parts = amerinth::api::tags::project_types_request(&client, 0).unwrap();
    assert_eq!(parts.url, "https://api.modrinth.com/v2/tag/project_type");
    let parts = amerinth::api::tags::side_types_request(&client, 0).unwrap();
    assert_eq!(parts.url, "https://api.modrinth.com/v2/tag/side_type");
    let parts = amerinth::api::tags::report_types_request(&client, 0).unwrap();
    assert_eq!(parts.url, "https://api.modrinth.com/v2/tag/report_type");
    let parts = amerinth::api::loader::loaders_request(&client, 0).unwrap();
    assert_eq!(parts.url, "https://api.modrinth.com/v2/tag/loader");
    let parts = amerinth::api::donation::donation_platforms_request(&client, 0).unwrap();
    assert_eq!(parts.url, "https://api.modrinth.com/v2/tag/donation_platform");
}
