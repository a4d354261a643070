use brawl_gateway::config::Config;
use brawl_gateway::config::ConfigError;
use brawl_gateway::cors::allowed_methods;
use brawl_gateway::cors::allowed_origins;
use brawl_gateway::cors::cors_allows;
use brawl_gateway::cors::method_allowed;
use brawl_gateway::cors::origin_allowed;
use brawl_gateway::cors::LISTEN_PORT;
use brawl_gateway::digits::parse_u32;
use brawl_gateway::digits::u32_to_decimal;
use brawl_gateway::forward::classify_response;
use brawl_gateway::forward::prepare_request;
use brawl_gateway::forward::relay;
use brawl_gateway::forward::UpstreamOutcome;
use brawl_gateway::route::match_route;
use brawl_gateway::route::Route;

fn segments(parts: &[&str]) -> Vec<String> {
    parts.iter().map(|p| p.to_string()).collect()
}

#[test]
fn success_response_passes_body_through() {
    let outcome = classify_response(200, "200 OK".to_string(), "{\"name\":\"x\"}".to_string());
    let response = relay(outcome);
    assert_eq!(response.status, 200);
    assert_eq!(response.body, "{\"name\":\"x\"}");
}

#[test]
fn any_2xx_success_yields_200() {
    let outcome = classify_response(204, "204 No Content".to_string(), "".to_string());
    let response = relay(outcome);
    assert_eq!(response.status, 200);
    assert_eq!(response.body, "");
}

#[test]
fn upstream_404_is_mirrored_with_fixed_body() {
    let outcome = classify_response(
        404,
        "404 Not Found".to_string(),
        "upstream error detail".to_string(),
    );
    let response = relay(outcome);
    assert_eq!(response.status, 404);
    assert_eq!(response.body, "Errore Brawl Stars: 404 Not Found");
}

#[test]
fn upstream_500_is_mirrored_with_fixed_body() {
    let outcome = classify_response(
        500,
        "500 Internal Server Error".to_string(),
        "".to_string(),
    );
    let response = relay(outcome);
    assert_eq!(response.status, 500);
    assert_eq!(response.body, "Errore Brawl Stars: 500 Internal Server Error");
}

#[test]
fn transport_failure_yields_502_naming_the_failure() {
    let outcome = UpstreamOutcome::TransportFailure {
        description: "error sending request: dns error".to_string(),
    };
    let response = relay(outcome);
    assert_eq!(response.status, 502);
    assert_eq!(response.body, "Errore reqwest: error sending request: dns error");
}

#[test]
fn player_route_forwards_to_tagged_player_url() {
    let route = match_route(&segments(&["player", "ABC123"])).unwrap();
    assert_eq!(route, Route::Player { tag: "ABC123".to_string() });
    assert_eq!(
        route.upstream_url(),
        "https://api.brawlstars.com/v1/players/%23ABC123"
    );
}

#[test]
fn battlelog_route_appends_suffix() {
    let route = match_route(&segments(&["player", "XYZ", "battlelog"])).unwrap();
    assert_eq!(route, Route::Battlelog { tag: "XYZ".to_string() });
    assert_eq!(
        route.upstream_url(),
        "https://api.brawlstars.com/v1/players/%23XYZ/battlelog"
    );
}

#[test]
fn club_route_forwards_to_tagged_club_url() {
    let route = match_route(&segments(&["clubs", "QQQ"])).unwrap();
    assert_eq!(route, Route::Club { tag: "QQQ".to_string() });
    assert_eq!(route.upstream_url(), "https://api.brawlstars.com/v1/clubs/%23QQQ");
}

#[test]
fn brawlers_route_has_no_parameter() {
    let route = match_route(&segments(&["brawlers"])).unwrap();
    assert_eq!(route, Route::Brawlers);
    assert_eq!(route.upstream_url(), "https://api.brawlstars.com/v1/brawlers");
}

#[test]
fn numeric_brawler_route_forwards_decimal_id() {
    let route = match_route(&segments(&["brawlers", "16000000"])).unwrap();
    assert_eq!(route, Route::BrawlerById { id: 16000000 });
    assert_eq!(
        route.upstream_url(),
        "https://api.brawlstars.com/v1/brawlers/16000000"
    );
}

#[test]
fn non_numeric_brawler_id_is_rejected_by_routing() {
    assert_eq!(match_route(&segments(&["brawlers", "notanumber"])), None);
}

#[test]
fn events_route_forwards_to_rotation() {
    let route = match_route(&segments(&["events"])).unwrap();
    assert_eq!(route, Route::Events);
    assert_eq!(
        route.upstream_url(),
        "https://api.brawlstars.com/v1/events/rotation"
    );
}

#[test]
fn rankings_players_route_takes_country_code_verbatim() {
    let route = match_route(&segments(&["rankings", "IT", "players"])).unwrap();
    assert_eq!(route, Route::RankingsPlayers { code: "IT".to_string() });
    assert_eq!(
        route.upstream_url(),
        "https://api.brawlstars.com/v1/rankings/IT/players"
    );
}

#[test]
fn rankings_clubs_route_forwards_country_code() {
    let route = match_route(&segments(&["rankings", "US", "clubs"])).unwrap();
    assert_eq!(route, Route::RankingsClubs { code: "US".to_string() });
    assert_eq!(
        route.upstream_url(),
        "https://api.brawlstars.com/v1/rankings/US/clubs"
    );
}

#[test]
fn unknown_paths_match_no_route() {
    assert_eq!(match_route(&segments(&[])), None);
    assert_eq!(match_route(&segments(&["players"])), None);
    assert_eq!(match_route(&segments(&["player"])), None);
    assert_eq!(match_route(&segments(&["player", "A", "B"])), None);
    assert_eq!(match_route(&segments(&["rankings", "US", "teams"])), None);
    assert_eq!(match_route(&segments(&["rankings", "US", "clubs", "x"])), None);
}

#[test]
fn two_segment_battlelog_word_is_a_player_tag() {
    let route = match_route(&segments(&["player", "battlelog"])).unwrap();
    assert_eq!(route, Route::Player { tag: "battlelog".to_string() });
}

#[test]
fn empty_tag_still_routes_with_bare_escape() {
    let route = match_route(&segments(&["player", ""])).unwrap();
    assert_eq!(route, Route::Player { tag: "".to_string() });
    assert_eq!(route.upstream_url(), "https://api.brawlstars.com/v1/players/%23");
}

#[test]
fn parse_u32_accepts_the_largest_value() {
    assert_eq!(parse_u32("4294967295"), Some(u32::MAX));
}

#[test]
fn parse_u32_rejects_just_past_the_largest_value() {
    assert_eq!(parse_u32("4294967296"), None);
    assert_eq!(parse_u32("99999999999999999999"), None);
}

#[test]
fn parse_u32_handles_zero_and_leading_zeros() {
    assert_eq!(parse_u32("0"), Some(0));
    assert_eq!(parse_u32("007"), Some(7));
}

#[test]
fn parse_u32_rejects_empty_and_mixed_input() {
    assert_eq!(parse_u32(""), None);
    assert_eq!(parse_u32("12a"), None);
    assert_eq!(parse_u32("-1"), None);
    assert_eq!(parse_u32(" 1"), None);
}

#[test]
fn u32_renders_in_decimal_without_leading_zeros() {
    assert_eq!(u32_to_decimal(0), "0");
    assert_eq!(u32_to_decimal(7), "7");
    assert_eq!(u32_to_decimal(16000000), "16000000");
    assert_eq!(u32_to_decimal(u32::MAX), "4294967295");
}

#[test]
fn allowed_origin_with_get_passes_cors() {
    assert!(cors_allows("http://localhost:1420", "GET"));
    assert!(cors_allows("tauri://localhost", "OPTIONS"));
    assert!(cors_allows("capacitor://localhost", "GET"));
}

#[test]
fn foreign_origin_is_rejected_by_cors() {
    assert!(!cors_allows("http://evil.example", "GET"));
    assert!(!origin_allowed("http://localhost:1421"));
    assert!(!origin_allowed(""));
}

#[test]
fn post_from_allowed_origin_is_rejected_by_cors() {
    assert!(!cors_allows("http://localhost:1420", "POST"));
    assert!(!method_allowed("POST"));
    assert!(!method_allowed("get"));
}

#[test]
fn cors_allow_lists_hold_exactly_the_policy() {
    let origins = allowed_origins();
    assert_eq!(
        origins,
        vec![
            "http://localhost:1420".to_string(),
            "tauri://localhost".to_string(),
            "capacitor://localhost".to_string(),
        ]
    );
    for origin in &origins {
        assert!(origin_allowed(origin));
    }
    let methods = allowed_methods();
    assert_eq!(methods, vec!["GET".to_string(), "OPTIONS".to_string()]);
    for method in &methods {
        assert!(method_allowed(method));
    }
}

#[test]
fn missing_token_is_a_configuration_error() {
    assert!(matches!(Config::from_env_token(None), Err(ConfigError::Missing)));
}

#[test]
fn empty_token_is_a_configuration_error() {
    assert!(matches!(
        Config::from_env_token(Some("".to_string())),
        Err(ConfigError::Empty)
    ));
}

#[test]
fn valid_token_is_injected_as_bearer_header() {
    let config = Config::from_env_token(Some("secret-token".to_string())).unwrap();
    assert_eq!(config.auth_header(), "Bearer secret-token");
}

#[test]
fn prepared_request_carries_url_and_credential() {
    let config = Config::from_env_token(Some("tok".to_string())).unwrap();
    let route = Route::RankingsClubs { code: "US".to_string() };
    let request = prepare_request(&config, &route);
    assert_eq!(request.url, "https://api.brawlstars.com/v1/rankings/US/clubs");
    assert_eq!(request.auth_header, "Bearer tok");
}

#[test]
fn gateway_listens_on_its_fixed_port() {
    assert_eq!(LISTEN_PORT, 8080);
}
