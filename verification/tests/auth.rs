use domo::auth::{
    fetch_access_token, DomoClientAppCredentials, DomoScope, DomoToken, Environment, TokenStep,
};
use domo::error::AuthError;
use domo::http::{HttpReply, Method};
use domo::json::{JsonField, JsonObject};

const TOKEN_JSON: &str = "{\"access_token\":\"abc.def\",\"token_type\":\"bearer\",\
    \"expires_in\":3599,\"scope\":\"data user\",\"customer\":\"acme\",\"env\":\"prod3\",\
    \"userId\":12345,\"role\":\"Admin\",\"jti\":\"0f1e-2d3c\",\"domain\":\"acme.domo.com\"}";

fn no_environment() -> Environment {
    Environment {
        client_id: None,
        client_secret: None,
        data_scope: false,
        user_scope: false,
        audit_scope: false,
        dashboard_scope: false,
    }
}

fn scope(data: bool, user: bool, audit: bool, dashboard: bool) -> DomoScope {
    DomoScope { data, user, audit, dashboard, buzz: false, account: false, workflow: false }
}

fn ok_reply(body: &str) -> HttpReply {
    HttpReply::Response { status: 200, body: body.as_bytes().to_vec() }
}

#[test]
fn token_default_is_empty() {
    let token = DomoToken::default();
    assert_eq!(token.access_token, "");
    assert_eq!(token.token_type, "");
    assert_eq!(token.expires_in, 0);
    assert_eq!(token.scope, "");
    assert_eq!(token.customer, "");
    assert_eq!(token.env, "");
    assert_eq!(token.user_id, 0);
    assert_eq!(token.role, "");
    assert_eq!(token.jti, "");
    assert_eq!(token.domain, "");
}

#[test]
fn token_builders_set_one_field_each() {
    let token = DomoToken::default()
        .access_token("abc")
        .token_type("bearer")
        .expires_in(3600)
        .scope("data");
    let mut expected = DomoToken::default();
    expected.access_token = "abc".to_string();
    expected.token_type = "bearer".to_string();
    expected.expires_in = 3600;
    expected.scope = "data".to_string();
    assert_eq!(token, expected);
    let changed = token.clone().scope("user");
    assert_eq!(changed.scope, "user");
    assert_eq!(changed.access_token, token.access_token);
    assert_eq!(changed.expires_in, token.expires_in);
}

#[test]
fn scope_default_has_no_flag() {
    assert_eq!(DomoScope::default(), scope(false, false, false, false));
    assert_eq!(DomoScope::default().scope_string(), "");
}

#[test]
fn scope_string_exact_values() {
    assert_eq!(scope(true, false, false, false).scope_string(), "data");
    assert_eq!(scope(false, false, false, true).scope_string(), "dashboard");
    assert_eq!(scope(true, true, false, false).scope_string(), "data%20user");
    assert_eq!(scope(false, true, true, false).scope_string(), "user%20audit");
    assert_eq!(scope(true, false, true, true).scope_string(), "data%20audit%20dashboard");
    assert_eq!(scope(true, true, true, true).scope_string(), "data%20user%20audit%20dashboard");
}

#[test]
fn scope_string_of_every_subset_of_four() {
    let names = ["data", "user", "audit", "dashboard"];
    for bits in 0..16u32 {
        let flags = [bits & 1 != 0, bits & 2 != 0, bits & 4 != 0, bits & 8 != 0];
        let mut chosen = Vec::new();
        for i in 0..4 {
            if flags[i] {
                chosen.push(names[i]);
            }
        }
        let expected = chosen.join("%20");
        let got = scope(flags[0], flags[1], flags[2], flags[3]).scope_string();
        assert_eq!(got, expected);
        assert_eq!(got.is_empty(), bits == 0);
    }
}

#[test]
fn scope_string_continues_with_the_later_scopes() {
    let all = DomoScope {
        data: true,
        user: true,
        audit: true,
        dashboard: true,
        buzz: true,
        account: true,
        workflow: true,
    };
    assert_eq!(
        all.scope_string(),
        "data%20user%20audit%20dashboard%20buzz%20account%20workflow"
    );
    let mut late = DomoScope::default();
    late.workflow = true;
    late.buzz = true;
    assert_eq!(late.scope_string(), "buzz%20workflow");
}

#[test]
fn default_without_settings_asks_for_data_only() {
    let credentials = DomoClientAppCredentials::default(no_environment());
    assert_eq!(credentials.client_id, "");
    assert_eq!(credentials.client_secret, "");
    assert_eq!(credentials.token, None);
    assert_eq!(credentials.domo_scope, scope(true, false, false, false));
    assert!(credentials.missing_credentials());
}

#[test]
fn default_with_all_four_scopes_takes_them() {
    let env = Environment {
        client_id: Some("id".to_string()),
        client_secret: Some("secret".to_string()),
        data_scope: true,
        user_scope: true,
        audit_scope: true,
        dashboard_scope: true,
    };
    let credentials = DomoClientAppCredentials::default(env);
    assert_eq!(credentials.client_id, "id");
    assert_eq!(credentials.client_secret, "secret");
    assert_eq!(credentials.domo_scope, scope(true, true, true, true));
    assert!(!credentials.missing_credentials());
}

#[test]
fn default_with_some_scopes_falls_back_to_data() {
    let mut env = no_environment();
    env.user_scope = true;
    env.audit_scope = true;
    env.dashboard_scope = true;
    let credentials = DomoClientAppCredentials::default(env);
    assert_eq!(credentials.domo_scope, scope(true, false, false, false));
}

#[test]
fn credential_builders_set_one_field_each() {
    let base = DomoClientAppCredentials::default(no_environment());
    let credentials = base.clone().client_id("id").client_secret("secret");
    assert_eq!(credentials.client_id, "id");
    assert_eq!(credentials.client_secret, "secret");
    assert_eq!(credentials.domo_scope, base.domo_scope);
    assert_eq!(credentials.token, None);
    let scoped = credentials.clone().client_scope(scope(false, true, false, false));
    assert_eq!(scoped.domo_scope, scope(false, true, false, false));
    assert_eq!(scoped.client_id, "id");
    let token = DomoToken::default().access_token("abc");
    let with_token = scoped.token_info(token.clone());
    assert_eq!(with_token.token, Some(token));
    assert_eq!(with_token.client_secret, "secret");
}

#[test]
fn with_scope_builders_set_their_flag() {
    let none = DomoClientAppCredentials::default(no_environment()).client_scope(DomoScope::default());
    assert!(none.clone().with_data_scope().domo_scope.data);
    assert!(none.clone().with_user_scope().domo_scope.user);
    assert!(none.clone().with_audit_scope().domo_scope.audit);
    assert!(none.clone().with_dashboard_scope().domo_scope.dashboard);
    assert!(none.clone().with_buzz_scope().domo_scope.buzz);
    assert!(none.clone().with_workflow_scope().domo_scope.workflow);
    assert!(none.clone().with_account_scope().domo_scope.account);
    let two = none.with_user_scope().with_account_scope();
    let mut expected = DomoScope::default();
    expected.user = true;
    expected.account = true;
    assert_eq!(two.domo_scope, expected);
}

#[test]
fn missing_credentials_needs_both_texts() {
    let base = DomoClientAppCredentials::default(no_environment());
    assert!(base.clone().client_id("id").missing_credentials());
    assert!(base.clone().client_secret("secret").missing_credentials());
    assert!(!base.client_id("id").client_secret("secret").missing_credentials());
}

#[test]
fn build_returns_the_credentials() {
    let credentials =
        DomoClientAppCredentials::default(no_environment()).client_id("id").with_user_scope();
    assert_eq!(credentials.clone().build(), credentials);
}

#[test]
fn fetch_access_token_describes_the_request() {
    let request = fetch_access_token("id", "secret", "data%20user");
    assert_eq!(request.method, Method::Post);
    assert_eq!(
        request.url,
        "https://api.domo.com/oauth/token?grant_type=client_credentials&scope=data%20user"
    );
    assert_eq!(request.basic_auth, Some(("id".to_string(), "secret".to_string())));
    assert!(request.headers.is_empty());
    assert_eq!(request.body, None);
}

#[test]
fn request_access_token_uses_the_configured_scopes() {
    let credentials = DomoClientAppCredentials::default(no_environment())
        .client_id("id")
        .client_secret("secret")
        .with_audit_scope();
    let request = credentials.request_access_token();
    assert_eq!(request, fetch_access_token("id", "secret", "data%20audit"));
    assert_eq!(request, credentials.fetch_access_token("id", "secret", "data%20audit"));
}

#[test]
fn token_from_json_reads_all_fields() {
    let text = |s: &str| JsonField::Text(s.to_string());
    let object = JsonObject {
        members: vec![
            ("domain".to_string(), text("acme.domo.com")),
            ("access_token".to_string(), text("abc")),
            ("token_type".to_string(), text("bearer")),
            ("expires_in".to_string(), JsonField::Number(Some(3599))),
            ("unknown".to_string(), JsonField::Other),
            ("scope".to_string(), text("data")),
            ("customer".to_string(), text("acme")),
            ("env".to_string(), text("prod3")),
            ("userId".to_string(), JsonField::Number(Some(7))),
            ("role".to_string(), text("Admin")),
            ("jti".to_string(), text("j")),
        ],
    };
    let token = DomoToken::from_json(&object).unwrap();
    assert_eq!(token.access_token, "abc");
    assert_eq!(token.token_type, "bearer");
    assert_eq!(token.expires_in, 3599);
    assert_eq!(token.scope, "data");
    assert_eq!(token.customer, "acme");
    assert_eq!(token.env, "prod3");
    assert_eq!(token.user_id, 7);
    assert_eq!(token.role, "Admin");
    assert_eq!(token.jti, "j");
    assert_eq!(token.domain, "acme.domo.com");
}

#[test]
fn token_from_json_rejects_other_shapes() {
    let text = |s: &str| JsonField::Text(s.to_string());
    let full = vec![
        ("access_token".to_string(), text("abc")),
        ("token_type".to_string(), text("bearer")),
        ("expires_in".to_string(), JsonField::Number(Some(3599))),
        ("scope".to_string(), text("data")),
        ("customer".to_string(), text("acme")),
        ("env".to_string(), text("prod3")),
        ("userId".to_string(), JsonField::Number(Some(7))),
        ("role".to_string(), text("Admin")),
        ("jti".to_string(), text("j")),
        ("domain".to_string(), text("acme.domo.com")),
    ];
    assert!(DomoToken::from_json(&JsonObject { members: full.clone() }).is_ok());
    for missing in 0..full.len() {
        let mut members = full.clone();
        members.remove(missing);
        assert_eq!(DomoToken::from_json(&JsonObject { members }), Err(AuthError::Deserialize));
    }
    let mut wrong_type = full.clone();
    wrong_type[0].1 = JsonField::Number(Some(1));
    assert_eq!(
        DomoToken::from_json(&JsonObject { members: wrong_type }),
        Err(AuthError::Deserialize)
    );
    let mut too_large = full.clone();
    too_large[2].1 = JsonField::Number(Some(4294967296));
    assert_eq!(
        DomoToken::from_json(&JsonObject { members: too_large }),
        Err(AuthError::Deserialize)
    );
    let mut largest = full.clone();
    largest[2].1 = JsonField::Number(Some(4294967295));
    assert_eq!(
        DomoToken::from_json(&JsonObject { members: largest }).unwrap().expires_in,
        4294967295
    );
    let mut negative = full.clone();
    negative[6].1 = JsonField::Number(None);
    assert_eq!(
        DomoToken::from_json(&JsonObject { members: negative }),
        Err(AuthError::Deserialize)
    );
    assert_eq!(
        DomoToken::from_json(&JsonObject { members: Vec::new() }),
        Err(AuthError::Deserialize)
    );
}

#[test]
fn token_from_reply_parses_the_body() {
    let token = DomoToken::from_reply(&ok_reply(TOKEN_JSON)).unwrap();
    assert_eq!(token.access_token, "abc.def");
    assert_eq!(token.token_type, "bearer");
    assert_eq!(token.expires_in, 3599);
    assert_eq!(token.scope, "data user");
    assert_eq!(token.customer, "acme");
    assert_eq!(token.env, "prod3");
    assert_eq!(token.user_id, 12345);
    assert_eq!(token.role, "Admin");
    assert_eq!(token.jti, "0f1e-2d3c");
    assert_eq!(token.domain, "acme.domo.com");
}

#[test]
fn token_from_reply_reports_each_failure() {
    assert_eq!(
        DomoToken::from_reply(&HttpReply::TransportFailed),
        Err(AuthError::HttpRequestFailed)
    );
    let unauthorized = HttpReply::Response { status: 401, body: TOKEN_JSON.as_bytes().to_vec() };
    assert_eq!(
        DomoToken::from_reply(&unauthorized),
        Err(AuthError::RequestFailed { status: 401 })
    );
    let redirect = HttpReply::Response { status: 300, body: Vec::new() };
    assert_eq!(DomoToken::from_reply(&redirect), Err(AuthError::RequestFailed { status: 300 }));
    let early = HttpReply::Response { status: 199, body: TOKEN_JSON.as_bytes().to_vec() };
    assert_eq!(DomoToken::from_reply(&early), Err(AuthError::RequestFailed { status: 199 }));
    assert_eq!(DomoToken::from_reply(&ok_reply("not json")), Err(AuthError::Deserialize));
    assert_eq!(DomoToken::from_reply(&ok_reply("[1, 2]")), Err(AuthError::Deserialize));
    assert_eq!(DomoToken::from_reply(&ok_reply("{}")), Err(AuthError::Deserialize));
    assert_eq!(
        DomoToken::from_reply(&ok_reply("{\"access_token\":\"abc\"}")),
        Err(AuthError::Deserialize)
    );
    let negative = TOKEN_JSON.replace("3599", "-1");
    assert_eq!(DomoToken::from_reply(&ok_reply(&negative)), Err(AuthError::Deserialize));
    let fraction = TOKEN_JSON.replace("12345", "1.5");
    assert_eq!(DomoToken::from_reply(&ok_reply(&fraction)), Err(AuthError::Deserialize));
    let not_utf8 = HttpReply::Response { status: 200, body: vec![0xff, 0xfe] };
    assert_eq!(DomoToken::from_reply(&not_utf8), Err(AuthError::Deserialize));
    let last_success = HttpReply::Response { status: 299, body: TOKEN_JSON.as_bytes().to_vec() };
    assert!(DomoToken::from_reply(&last_success).is_ok());
}

#[test]
fn get_access_token_fetches_without_a_token() {
    let credentials = DomoClientAppCredentials::default(no_environment())
        .client_id("id")
        .client_secret("secret");
    match credentials.get_access_token() {
        TokenStep::Fetch(request) => {
            assert_eq!(request, fetch_access_token("id", "secret", "data"));
        },
        TokenStep::Cached(_) => panic!("no token was cached"),
    }
}

#[test]
fn received_token_is_cached_and_reused() {
    let mut credentials = DomoClientAppCredentials::default(no_environment())
        .client_id("id")
        .client_secret("secret");
    let first = credentials.receive_access_token(&ok_reply(TOKEN_JSON));
    assert_eq!(first, Ok("abc.def".to_string()));
    assert_eq!(credentials.client_id, "id");
    assert_eq!(credentials.client_secret, "secret");
    assert_eq!(credentials.token.as_ref().map(|t| t.user_id), Some(12345));
    assert_eq!(credentials.get_access_token(), TokenStep::Cached("abc.def".to_string()));
    assert_eq!(credentials.get_access_token(), TokenStep::Cached("abc.def".to_string()));
}

#[test]
fn cached_token_is_used_whatever_its_age() {
    let stale = DomoToken::default().access_token("old").expires_in(0);
    let credentials = DomoClientAppCredentials::default(no_environment()).token_info(stale);
    assert_eq!(credentials.get_access_token(), TokenStep::Cached("old".to_string()));
}

#[test]
fn failed_reply_leaves_the_credentials_unchanged() {
    let mut credentials = DomoClientAppCredentials::default(no_environment())
        .client_id("id")
        .client_secret("secret");
    let before = credentials.clone();
    let denied = HttpReply::Response { status: 403, body: b"denied".to_vec() };
    assert_eq!(
        credentials.receive_access_token(&denied),
        Err(AuthError::RequestFailed { status: 403 })
    );
    assert_eq!(credentials, before);
    assert_eq!(
        credentials.receive_access_token(&HttpReply::TransportFailed),
        Err(AuthError::HttpRequestFailed)
    );
    assert_eq!(credentials, before);
    assert_eq!(
        credentials.receive_access_token(&ok_reply("{\"token\":1}")),
        Err(AuthError::Deserialize)
    );
    assert_eq!(credentials, before);
    let cached = before.clone().token_info(DomoToken::default().access_token("kept"));
    let mut again = cached.clone();
    assert!(again.receive_access_token(&denied).is_err());
    assert_eq!(again, cached);
}

#[test]
fn later_token_replaces_the_cached_one() {
    let mut credentials = DomoClientAppCredentials::default(no_environment())
        .token_info(DomoToken::default().access_token("old"));
    assert_eq!(
        credentials.receive_access_token(&ok_reply(TOKEN_JSON)),
        Ok("abc.def".to_string())
    );
    assert_eq!(credentials.get_access_token(), TokenStep::Cached("abc.def".to_string()));
}
