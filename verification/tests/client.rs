use twitch_oauth::json::JsonValue;
use twitch_oauth::request::HttpMethod;
use twitch_oauth::request::app_access_token_request;
use twitch_oauth::request::join_scopes;
use twitch_oauth::request::revoke_token_request;
use twitch_oauth::request::validate_token_request;
use twitch_oauth::response::decode_app_access_token;
use twitch_oauth::response::issuance_from_response;
use twitch_oauth::response::revocation_from_response;
use twitch_oauth::response::validation_from_response;
use twitch_oauth::types::AppAccessToken;
use twitch_oauth::types::Error;

fn sample_token(access_token: &str) -> AppAccessToken {
    AppAccessToken {
        access_token: access_token.to_string(),
        expires_in: 3600,
        scope: None,
        token_type: "bearer".to_string(),
    }
}

#[test]
fn issuance_request_query_pairs() {
    let scopes = vec!["a".to_string(), "b:c".to_string()];
    let r = app_access_token_request("my_client", "my_secret", &scopes);
    assert_eq!(r.method, HttpMethod::Post);
    assert_eq!(r.url, "https://id.twitch.tv/oauth2/token");
    assert!(r.auth_header.is_none());
    let pairs: Vec<(&str, &str)> = r.query.iter().map(|p| (p.0.as_str(), p.1.as_str())).collect();
    assert_eq!(
        pairs,
        vec![
            ("grant_type", "client_credentials"),
            ("client_id", "my_client"),
            ("client_secret", "my_secret"),
            ("scope", "a b:c"),
        ]
    );
}

#[test]
fn scope_joining_uses_single_spaces() {
    assert_eq!(join_scopes(&vec!["a".to_string(), "b:c".to_string()]), "a b:c");
    assert_eq!(join_scopes(&Vec::new()), "");
    assert_eq!(join_scopes(&vec!["chat:read".to_string()]), "chat:read");
    assert_eq!(
        join_scopes(&vec!["x".to_string(), "y".to_string(), "z".to_string()]),
        "x y z"
    );
}

#[test]
fn validation_request_uses_oauth_scheme() {
    let r = validate_token_request(&sample_token("cfabdegwdoklmawdzdo98xt2fo512y"));
    assert_eq!(r.method, HttpMethod::Get);
    assert_eq!(r.url, "https://id.twitch.tv/oauth2/validate");
    assert!(r.query.is_empty());
    assert_eq!(
        r.auth_header,
        Some("OAuth cfabdegwdoklmawdzdo98xt2fo512y".to_string())
    );
}

#[test]
fn revocation_request_query_pairs() {
    let r = revoke_token_request(&sample_token("some_token"), "my_client");
    assert_eq!(r.method, HttpMethod::Post);
    assert_eq!(r.url, "https://id.twitch.tv/oauth2/revoke");
    assert!(r.auth_header.is_none());
    let pairs: Vec<(&str, &str)> = r.query.iter().map(|p| (p.0.as_str(), p.1.as_str())).collect();
    assert_eq!(pairs, vec![("token", "some_token"), ("client_id", "my_client")]);
}

#[test]
fn issuance_success_decodes_all_fields() {
    let body = "{\"access_token\":\"secret_value\",\"expires_in\":5011271,\"scope\":[\"chat:read\",\"chat:edit\"],\"token_type\":\"bearer\"}";
    let t = issuance_from_response(200, body).unwrap();
    assert_eq!(t.access_token, "secret_value");
    assert_eq!(t.expires_in, 5011271);
    assert_eq!(
        t.scope,
        Some(vec!["chat:read".to_string(), "chat:edit".to_string()])
    );
    assert_eq!(t.token_type, "bearer");
}

#[test]
fn issuance_scope_may_be_absent_or_null() {
    let absent = "{\"access_token\":\"t\",\"expires_in\":60,\"token_type\":\"bearer\"}";
    let t = issuance_from_response(200, absent).unwrap();
    assert_eq!(t.scope, None);

    let null = "{\"access_token\":\"t\",\"expires_in\":60,\"scope\":null,\"token_type\":\"bearer\"}";
    let t = issuance_from_response(200, null).unwrap();
    assert_eq!(t.scope, None);

    let empty = "{\"access_token\":\"t\",\"expires_in\":60,\"scope\":[],\"token_type\":\"bearer\"}";
    let t = issuance_from_response(200, empty).unwrap();
    assert_eq!(t.scope, Some(Vec::new()));
}

#[test]
fn issuance_ignores_extra_fields() {
    let body = "{\"access_token\":\"t\",\"expires_in\":60,\"token_type\":\"bearer\",\"refresh_token\":\"\",\"unexpected\":{\"deep\":[1,2,3]}}";
    let t = issuance_from_response(200, body).unwrap();
    assert_eq!(t.access_token, "t");
}

#[test]
fn non_success_statuses_always_fail() {
    let good = "{\"access_token\":\"t\",\"expires_in\":60,\"token_type\":\"bearer\"}";
    assert!(matches!(
        issuance_from_response(404, good),
        Err(Error::HttpStatus(404))
    ));
    assert!(matches!(
        issuance_from_response(199, good),
        Err(Error::HttpStatus(199))
    ));
    assert!(matches!(
        issuance_from_response(300, good),
        Err(Error::HttpStatus(300))
    ));
    assert!(matches!(
        validation_from_response(401, "{}"),
        Err(Error::HttpStatus(401))
    ));
    assert!(matches!(
        revocation_from_response(500),
        Err(Error::HttpStatus(500))
    ));
}

#[test]
fn success_statuses_cover_the_whole_2xx_range() {
    assert_eq!(revocation_from_response(200), Ok(()));
    assert_eq!(revocation_from_response(204), Ok(()));
    assert_eq!(revocation_from_response(299), Ok(()));
    let good = "{\"access_token\":\"t\",\"expires_in\":60,\"token_type\":\"bearer\"}";
    assert!(issuance_from_response(299, good).is_ok());
}

#[test]
fn issuance_missing_access_token_is_decode_failure() {
    let body = "{\"expires_in\":60,\"token_type\":\"bearer\"}";
    assert!(matches!(issuance_from_response(200, body), Err(Error::Decode)));
}

#[test]
fn issuance_malformed_bodies_are_decode_failures() {
    assert!(matches!(issuance_from_response(200, "not json"), Err(Error::Decode)));
    assert!(matches!(issuance_from_response(200, ""), Err(Error::Decode)));
    assert!(matches!(issuance_from_response(200, "[1,2]"), Err(Error::Decode)));
    let wrong_type = "{\"access_token\":\"t\",\"expires_in\":\"60\",\"token_type\":\"bearer\"}";
    assert!(matches!(issuance_from_response(200, wrong_type), Err(Error::Decode)));
    let negative = "{\"access_token\":\"t\",\"expires_in\":-1,\"token_type\":\"bearer\"}";
    assert!(matches!(issuance_from_response(200, negative), Err(Error::Decode)));
    let fractional = "{\"access_token\":\"t\",\"expires_in\":60.5,\"token_type\":\"bearer\"}";
    assert!(matches!(issuance_from_response(200, fractional), Err(Error::Decode)));
    let truncated = "{\"access_token\":\"t\",\"expires_in\":60,\"token_type\":\"bearer\"";
    assert!(matches!(issuance_from_response(200, truncated), Err(Error::Decode)));
    let non_string_scope =
        "{\"access_token\":\"t\",\"expires_in\":60,\"scope\":[1],\"token_type\":\"bearer\"}";
    assert!(matches!(
        issuance_from_response(200, non_string_scope),
        Err(Error::Decode)
    ));
}

#[test]
fn validation_success_decodes_all_fields() {
    let body = "{\"client_id\":\"wbmytr93xzw8zbg0p1izqyzzc5mbiz\",\"login\":\"twitchdev\",\"user_id\":\"141981764\",\"scopes\":[\"channel:read:subscriptions\"]}";
    let t = validation_from_response(200, body).unwrap();
    assert_eq!(t.client_id, "wbmytr93xzw8zbg0p1izqyzzc5mbiz");
    assert_eq!(t.login, Some("twitchdev".to_string()));
    assert_eq!(t.user_id, Some("141981764".to_string()));
    assert_eq!(t.scopes, vec!["channel:read:subscriptions".to_string()]);
}

#[test]
fn validation_login_and_user_id_are_optional() {
    let body = "{\"client_id\":\"c\",\"scopes\":[]}";
    let t = validation_from_response(200, body).unwrap();
    assert_eq!(t.login, None);
    assert_eq!(t.user_id, None);
    assert_eq!(t.scopes, Vec::<String>::new());
}

#[test]
fn validation_missing_required_fields_is_decode_failure() {
    let no_scopes = "{\"client_id\":\"c\"}";
    assert!(matches!(
        validation_from_response(200, no_scopes),
        Err(Error::Decode)
    ));
    let no_client = "{\"scopes\":[]}";
    assert!(matches!(
        validation_from_response(200, no_client),
        Err(Error::Decode)
    ));
}

#[test]
fn decode_takes_fields_from_the_served_json_only() {
    let mut fields: Vec<(String, JsonValue)> = Vec::new();
    fields.push(("access_token".to_string(), JsonValue::Str("abc".to_string())));
    fields.push(("expires_in".to_string(), JsonValue::UInt(1)));
    fields.push(("token_type".to_string(), JsonValue::Str("bearer".to_string())));
    let t = decode_app_access_token(&JsonValue::Obj(fields)).unwrap();
    assert_eq!(t.access_token, "abc");
    assert_eq!(t.expires_in, 1);
    assert_eq!(t.scope, None);
    assert_eq!(t.token_type, "bearer");
}
