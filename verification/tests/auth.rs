use tensorzero_core::auth::{
    auth_code_header_name, authenticate_request, extract_auth_code, increment_usage_and_stats,
    validate_admin_token, validate_auth_code_from_db, validate_auth_code_with_cache, AuthCodeRecord,
    AuthInfo, CacheStep, AUTH_CACHE_MAX_CAPACITY, AUTH_CACHE_TIME_TO_LIVE_SECS,
};
use tensorzero_core::auth_admin::{
    check_new_user, generate_auth_code_response, generate_unique_auth_code, get_auth_codes_query,
    insert_auth_code_query, list_codes_error, user_count_query, GenerateAuthCodeRequest,
    GenerateAuthCodeResponse, GetAuthCodesRequest,
};
use tensorzero_core::error::{Error, ErrorDetails};
use tensorzero_core::migration::Migrationauth0000;
use tensorzero_core::text::{
    contains_char, decimal_string, ends_with, ends_with_str, skip_chars, starts_with, str_eq,
    trim_chars, underscored,
};
use uuid::Uuid;

fn invalid_token() -> Error {
    Error::new(ErrorDetails::InvalidAuthToken { provider_name: "TUPLEAP_AUTHCODE".to_string() })
}

fn valid_info() -> AuthInfo {
    AuthInfo {
        tenant_id: String::new(),
        username: String::new(),
        auth_code: String::new(),
        is_valid: true,
    }
}

#[test]
fn bearer_codes() {
    assert_eq!(auth_code_header_name(), "TUPLEAP_AUTHCODE");
    assert_eq!(AUTH_CACHE_MAX_CAPACITY, 10_000);
    assert_eq!(AUTH_CACHE_TIME_TO_LIVE_SECS, 60 * 60);

    // No header
    assert_eq!(
        extract_auth_code(None),
        Err(Error::new(ErrorDetails::ApiKeyMissing { provider_name: "TUPLEAP_AUTHCODE".into() }))
    );
    assert_eq!(extract_auth_code(Some("code")), Ok("code".to_string()));

    // An unknown bearer: the cache does not know it, the database has no row.
    let CacheStep::QueryDatabase { query } = validate_auth_code_with_cache("tupleap_x", None)
    else {
        panic!("Expected a query")
    };
    assert_eq!(
        query,
        "SELECT auth_code, tenant_id, username, is_active FROM AUTHCode WHERE auth_code = 'tupleap_x' AND is_active = 1"
    );
    let validated = validate_auth_code_from_db(Ok(String::new()));
    assert_eq!(validated, Err(invalid_token()));
    assert_eq!(authenticate_request(validated), Err(invalid_token()));
    assert_eq!(invalid_token().status_code(), 401);
    assert_eq!(invalid_token().message(), "Invalid auth token for provider: TUPLEAP_AUTHCODE");

    // A known bearer: the row makes it valid, and what is returned is cached.
    let validated = validate_auth_code_from_db(Ok("tupleap_x\tacme\tjo\t1\n".to_string()));
    assert_eq!(validated, Ok(valid_info()));
    let cached = validated.as_ref().ok().cloned();
    assert_eq!(authenticate_request(validated), Ok(valid_info()));
    // The next request finds it in the cache and asks nothing of the database.
    assert_eq!(validate_auth_code_with_cache("tupleap_x", cached), CacheStep::Hit(valid_info()));
    // Once the entry has left the cache, the database is asked again.
    assert!(matches!(
        validate_auth_code_with_cache("tupleap_x", None),
        CacheStep::QueryDatabase { .. }
    ));

    // A cached entry that is not valid does not let the request on.
    let stale = AuthInfo { is_valid: false, ..valid_info() };
    assert_eq!(authenticate_request(Ok(stale)), Err(invalid_token()));
    // An error of the database is handed on by the validation, and hidden from the caller.
    let down = Error::new(ErrorDetails::ClickHouseQuery { message: "down".to_string() });
    let validated = validate_auth_code_from_db(Err(Error::new(ErrorDetails::ClickHouseQuery {
        message: "down".to_string(),
    })));
    assert_eq!(validated, Err(down));
    assert_eq!(authenticate_request(validated), Err(invalid_token()));

    // Codes that cannot stand in a query
    for code in ["x' OR '1'='1", "back\\slash"] {
        assert_eq!(validate_auth_code_with_cache(code, None), CacheStep::Reject(invalid_token()));
        assert_eq!(increment_usage_and_stats(code), None);
    }
    assert_eq!(
        increment_usage_and_stats("tupleap_x"),
        Some(
            "ALTER TABLE AUTHCode UPDATE usage_count = usage_count + 1 WHERE auth_code = 'tupleap_x'"
                .to_string()
        )
    );
    let record = AuthCodeRecord {
        auth_code: "c".into(),
        tenant_id: "t".into(),
        username: "u".into(),
        created_at: "2025-01-01 00:00:00.000".into(),
        is_active: 1,
        usage_count: 0,
        expires_at: None,
    };
    assert_eq!(record.clone(), record);
}

#[test]
fn admin_tokens() {
    assert_eq!(validate_admin_token(Some("Bearer secret"), Some("secret")), Ok(()));
    assert_eq!(validate_admin_token(Some("Bearer "), Some("")), Ok(()));
    let missing =
        || Error::new(ErrorDetails::ApiKeyMissing { provider_name: "Admin".to_string() });
    for header in [None, Some("secret"), Some("bearer secret"), Some("Bearer"), Some("")] {
        assert_eq!(validate_admin_token(header, Some("secret")), Err(missing()));
        // The header is looked at before the configuration.
        assert_eq!(validate_admin_token(header, None), Err(missing()));
    }
    assert_eq!(
        validate_admin_token(Some("Bearer secret"), None),
        Err(Error::new(ErrorDetails::Config { message: "Admin token not configured".to_string() }))
    );
    for token in ["Bearer secre", "Bearer secret ", "Bearer Bearer secret", "Bearer SECRET"] {
        assert_eq!(
            validate_admin_token(Some(token), Some("secret")),
            Err(Error::new(ErrorDetails::BadCredentialsPreInference {
                provider_name: "Admin".to_string()
            }))
        );
    }
}

#[test]
fn minting_codes() {
    assert_eq!(
        user_count_query("acme", "jo"),
        Ok("SELECT count() FROM AUTHCode WHERE tenant_id = 'acme' AND username = 'jo'".to_string())
    );
    let bad_name = Error::new(ErrorDetails::InvalidRequest {
        message: "Names may hold neither a single quote nor a backslash".to_string(),
    });
    assert_eq!(user_count_query("acme", "o'brien"), Err(bad_name));
    assert!(user_count_query("ac\\me", "jo").is_err());

    assert_eq!(check_new_user("0\n", "jo"), Ok(()));
    assert_eq!(check_new_user("  000 \t\r\n", "jo"), Ok(()));
    for count in ["1", "2\n", " 18446744073709551615 "] {
        assert_eq!(
            check_new_user(count, "jo"),
            Err(Error::new(ErrorDetails::UserAlreadyExists { user_name: "jo".to_string() }))
        );
    }
    for (answer, message) in [
        ("", "cannot parse integer from empty string"),
        (" \n", "cannot parse integer from empty string"),
        ("1 2", "invalid digit found in string"),
        ("-1", "invalid digit found in string"),
        ("18446744073709551616", "number too large to fit in target type"),
    ] {
        let error = check_new_user(answer, "jo").unwrap_err();
        assert_eq!(
            error,
            Error::new(ErrorDetails::ClickHouseDeserialization { message: message.to_string() })
        );
        assert_eq!(error.message(), format!("Error deserializing ClickHouse response: {message}"));
    }

    let random = Uuid::parse_str("a1b2c3d4-e5f6-4789-8abc-def012345678").unwrap();
    assert_eq!(
        generate_unique_auth_code("Acme Corp", "Jo Ann  Doe", 1700000000123456789, &random),
        "tupleap_Acme_Corp_Jo_Ann__Doe_1700000000123456789_a1b2c3d4"
    );
    assert_eq!(generate_unique_auth_code("", "", 0, &Uuid::nil()), "tupleap___0_00000000");

    assert_eq!(
        insert_auth_code_query("code", "acme", "jo", "2025-01-01 00:00:00.000", ""),
        Ok("INSERT INTO AUTHCode (auth_code, tenant_id, username, created_at, expires_at, created_by, is_active, usage_count) VALUES ('code', 'acme', 'jo', '2025-01-01 00:00:00.000', '', 'admin', 1, 0)".to_string())
    );
    assert!(insert_auth_code_query("code", "acme", "jo", "x'; DROP TABLE AUTHCode; --", "").is_err());
    let request = GenerateAuthCodeRequest {
        tenant_id: "acme".into(),
        username: "jo".into(),
        expires_at: Some("2026-01-01 00:00:00.000".into()),
    };
    assert_eq!(
        generate_auth_code_response(request, "code".into(), "2025-01-01 00:00:00.000".into()),
        GenerateAuthCodeResponse {
            auth_code: "code".into(),
            tenant_id: "acme".into(),
            username: "jo".into(),
            created_at: "2025-01-01 00:00:00.000".into(),
            expires_at: Some("2026-01-01 00:00:00.000".into()),
        }
    );
    let request = GetAuthCodesRequest { tenant_id: "acme".into(), username: "jo".into() };
    assert_eq!(
        get_auth_codes_query(&request),
        Ok("SELECT auth_code, tenant_id, username, usage_count, created_at, expires_at FROM AUTHCode WHERE tenant_id = 'acme' AND username = 'jo' ORDER BY created_at DESC LIMIT 1 FORMAT JSON".to_string())
    );
    let request = GetAuthCodesRequest { tenant_id: "'".into(), username: "jo".into() };
    assert!(get_auth_codes_query(&request).is_err());
    let cause = Error::new(ErrorDetails::ClickHouseQuery { message: "timeout".to_string() });
    assert_eq!(
        list_codes_error(&cause),
        Error::new(ErrorDetails::ClickHouseQuery {
            message: "Failed to list auth codes: Failed to run ClickHouse query: timeout"
                .to_string()
        })
    );
}

#[test]
fn the_migration_of_the_codes() {
    let migration = Migrationauth0000 { database: "tensorzero".to_string() };
    assert_eq!(migration.table(), "AUTHCode");
    assert_eq!(migration.can_apply(), Ok(()));
    let failed = || Err(Error::new(ErrorDetails::ClickHouseQuery { message: "no database".into() }));
    assert!(migration.should_apply(Ok(false)));
    assert!(!migration.should_apply(Ok(true)));
    assert!(migration.should_apply(failed()));
    assert!(!migration.has_succeeded(Ok(false)));
    assert!(migration.has_succeeded(Ok(true)));
    assert!(!migration.has_succeeded(failed()));
    let queries = migration.apply();
    assert_eq!(queries.len(), 2);
    assert!(queries[0].starts_with("CREATE TABLE IF NOT EXISTS AUTHCode ("));
    assert!(queries[0].ends_with("ENGINE = MergeTree() ORDER BY (tenant_id, auth_code);"));
    assert_eq!(
        queries[1],
        "ALTER TABLE AUTHCode ADD INDEX IdxAuthCode auth_code TYPE bloom_filter(0.01) GRANULARITY 1;"
    );
    assert_eq!(
        migration.rollback_instructions(),
        "/* **CAREFUL: THIS WILL DELETE ALL DATA** */ /* Drop the database */ DROP DATABASE IF EXISTS tensorzero; /* **CAREFUL: THIS WILL DELETE ALL DATA** */"
    );
}

#[test]
fn texts() {
    assert!(str_eq("", ""));
    assert!(str_eq("héllo", "héllo"));
    assert!(!str_eq("a", "b"));
    assert!(starts_with("tensorzero::x", "tensorzero::"));
    assert!(starts_with("abc", ""));
    assert!(!starts_with("ab", "abc"));
    assert!(!starts_with("xbc", "abc"));
    assert!(ends_with("a/", '/'));
    assert!(!ends_with("", '/'));
    assert!(!ends_with("/a", '/'));
    assert!(ends_with_str("/v1/chat/completions", "/chat/completions"));
    assert!(!ends_with_str("completions", "/chat/completions"));
    assert!(ends_with_str("x", ""));
    assert_eq!(skip_chars("Bearer é", 7), "é");
    assert_eq!(skip_chars("abc", 3), "");
    assert_eq!(skip_chars("abc", 4), "");
    assert_eq!(skip_chars("abc", 0), "abc");
    assert!(contains_char("a'b", '\''));
    assert!(!contains_char("ab", '\''));
    assert_eq!(underscored(" a  b é "), "_a__b_é_");
    assert_eq!(trim_chars(" \t a b \r\n"), vec!['a', ' ', 'b']);
    assert_eq!(trim_chars(" \n"), Vec::<char>::new());
    assert_eq!(trim_chars(""), Vec::<char>::new());
    for n in [0u64, 7, 10, 99, 100, 1234567890, u64::MAX] {
        assert_eq!(decimal_string(n), n.to_string());
    }
}
