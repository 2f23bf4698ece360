use teleprobe::api;
use teleprobe::auth::oidc::{
    config_url, read_header, verdict_for, verdict_of, Client, JsonWebKey, OidcError, TokenHeader,
};
use teleprobe::auth::{
    check_auth, check_auth_token, check_token, claims_match, strip_bearer, AuthError, TokenError,
    Verdict,
};
use teleprobe::config::{
    default_cycle_delay_millis, default_default_timeout, default_max_settle_time_millis,
    default_max_timeout, Auth, Config, OidcAuth, OidcAuthRule, Target, TokenAuth,
};
use teleprobe::probe::specifier::ProbeSpecifier;
use teleprobe::probe::ProbeInfo;
use teleprobe::server::{
    auth_rejection, handle_home, handle_run, run_status, run_with_log_capture, RunRequest,
    TargetLocks,
};
use teleprobe::logutil::LogEntry;

const RS256_K1: &str = "eyJhbGciOiJSUzI1NiIsImtpZCI6ImsxIiwidHlwIjoiSldUIn0.e30.c2ln";
const HS256_NO_KID: &str = "eyJhbGciOiJIUzI1NiIsInR5cCI6IkpXVCJ9.e30.c2ln";
const ES256_K2: &str = "eyJhbGciOiJFUzI1NiIsImtpZCI6ImsyIn0.e30.c2ln";

fn target(name: &str, chip: &str, probe: &str) -> Target {
    Target {
        name: name.to_string(),
        chip: chip.to_string(),
        probe: ProbeSpecifier::from_str(probe).unwrap(),
        connect_under_reset: false,
        speed: Some(4000),
        power_reset: true,
        cycle_delay_millis: default_cycle_delay_millis(),
        max_settle_time_millis: default_max_settle_time_millis(),
    }
}

fn config() -> Config {
    Config {
        targets: vec![
            target("nrf52", "nRF52840_xxAA", "1366:0101:000683"),
            target("rp2040", "RP2040", "2e8a:000c:E661"),
            target("nrf52", "nRF52833_xxAA", "1366:0101:999999"),
        ],
        auths: vec![Auth::Token(TokenAuth { token: "right".to_string() })],
        default_timeout: default_default_timeout(),
        max_timeout: default_max_timeout(),
    }
}

fn rule(pairs: &[(&str, &str)]) -> OidcAuthRule {
    OidcAuthRule { claims: pairs.iter().map(|(k, v)| (k.to_string(), v.to_string())).collect() }
}

fn claims(pairs: &[(&str, Option<&str>)]) -> Vec<(String, Option<String>)> {
    pairs.iter().map(|(k, v)| (k.to_string(), v.map(str::to_string))).collect()
}

fn oidc(rules: Vec<OidcAuthRule>) -> Auth {
    Auth::Oidc(OidcAuth { issuer: "https://issuer.example".to_string(), rules })
}

#[test]
fn defaults() {
    assert_eq!(default_default_timeout(), 10);
    assert_eq!(default_max_timeout(), 60);
    assert_eq!(default_cycle_delay_millis(), 500);
    assert_eq!(default_max_settle_time_millis(), 20000);
}

#[test]
fn timeout_is_clamped() {
    let c = config();
    assert_eq!(c.timeout_for(None), 10);
    assert_eq!(c.timeout_for(Some(1)), 1);
    assert_eq!(c.timeout_for(Some(0)), 0);
    assert_eq!(c.timeout_for(Some(60)), 60);
    assert_eq!(c.timeout_for(Some(61)), 60);
    assert_eq!(c.timeout_for(Some(u64::MAX)), 60);
}

#[test]
fn timeout_default_above_the_maximum_is_clamped_too() {
    let mut c = config();
    c.default_timeout = 100;
    assert_eq!(c.timeout_for(None), 60);
    assert_eq!(c.timeout_for(Some(5)), 5);
}

#[test]
fn targets_are_found_by_name() {
    let c = config();
    assert_eq!(c.find_target("nrf52"), Some(0));
    assert_eq!(c.find_target("rp2040"), Some(1));
    assert_eq!(c.find_target("unknown"), None);
    assert_eq!(c.find_target("NRF52"), None);
    assert_eq!(c.find_target(""), None);
}

#[test]
fn target_gives_the_options_of_its_probe() {
    let opts = config().targets[1].probe_opts();
    assert_eq!(opts.chip, "RP2040");
    assert_eq!(opts.probe.as_ref().unwrap().to_text(), "2e8a:c:E661");
    assert_eq!(opts.speed, Some(4000));
    assert!(opts.power_reset);
    assert!(!opts.connect_under_reset);
    assert_eq!(opts.cycle_delay_millis, 500);
    assert_eq!(opts.max_settle_time_millis, 20000);
    assert_eq!(opts.protocol, None);
}

#[test]
fn auth_names() {
    assert_eq!(oidc(vec![]).to_string(), "OIDC");
    assert_eq!(Auth::Token(TokenAuth { token: String::new() }).to_string(), "Token");
}

#[test]
fn known_good_run_answers_200_with_the_device_log() {
    let entries = vec![entry("info", "hello"), entry("warn", "0.5 low battery")];
    let response = run_with_log_capture(true, &entries);
    assert_eq!(response.status, 200);
    let body = String::from_utf8(response.body).unwrap();
    assert!(body.contains("info - hello"));
    assert_eq!(body, "info - hello\nwarn - 0.5 low battery\n");
}

#[test]
fn failed_run_answers_400_with_the_log() {
    let entries = vec![
        entry("warn", "Deadline exceeded!"),
        entry("info", "Frame 0: main @ 0x08000104"),
        entry("error", "Run failed: Deadline exceeded"),
    ];
    let response = run_with_log_capture(false, &entries);
    assert_eq!(response.status, 400);
    let body = String::from_utf8(response.body).unwrap();
    assert!(body.contains("Deadline exceeded"));
    assert!(body.contains("Frame 0:"));
    assert_eq!(run_status(true), 200);
    assert_eq!(run_status(false), 400);
    assert_eq!(run_with_log_capture(false, &vec![]).body, Vec::<u8>::new());
}

fn entry(level: &str, message: &str) -> LogEntry {
    LogEntry {
        message: message.to_string(),
        level: level.to_string(),
        module: None,
        file: None,
        line: None,
        timestamp_millis: 0,
    }
}

#[test]
fn wrong_bearer_token_answers_401() {
    let header = "Bearer wrong";
    let error = check_auth(header, &Verdict::NotConfigured, &config().auths).unwrap_err();
    assert_eq!(error, AuthError::Unauthorized);
    let response = auth_rejection(error);
    assert_eq!(response.status, 401);
    assert_eq!(response.body, b"Unauthorized");
}

#[test]
fn right_bearer_token_is_let_in() {
    assert_eq!(check_auth("Bearer right", &Verdict::NotConfigured, &config().auths), Ok(0));
}

#[test]
fn header_without_bearer_is_a_bad_request() {
    for header in ["right", "bearer right", "Bearer", "Basic right", ""] {
        let error = check_auth(header, &Verdict::NotConfigured, &config().auths).unwrap_err();
        assert_eq!(error, AuthError::BadAuthHeaderFormat);
    }
    let response = auth_rejection(AuthError::BadAuthHeaderFormat);
    assert_eq!(response.status, 401);
    assert_eq!(response.body, b"Bad Authorization header");
}

#[test]
fn bearer_prefix_is_stripped() {
    assert_eq!(strip_bearer("Bearer abc").as_deref(), Some("abc"));
    assert_eq!(strip_bearer("Bearer ").as_deref(), Some(""));
    assert_eq!(strip_bearer("Bearer  x").as_deref(), Some(" x"));
    assert_eq!(strip_bearer("Bearer"), None);
    assert_eq!(strip_bearer("xBearer abc"), None);
}

#[test]
fn unknown_target_answers_404() {
    let response = handle_run(&config(), "unknown", None).unwrap_err();
    assert_eq!(response.status, 404);
    assert_eq!(response.body, b"Target not found: unknown");
}

#[test]
fn known_target_gets_a_run_with_its_time() {
    assert_eq!(
        handle_run(&config(), "nrf52", Some(1)).unwrap(),
        RunRequest { target: 0, timeout_seconds: 1 }
    );
    assert_eq!(
        handle_run(&config(), "rp2040", None).unwrap(),
        RunRequest { target: 1, timeout_seconds: 10 }
    );
    assert_eq!(
        handle_run(&config(), "rp2040", Some(3600)).unwrap(),
        RunRequest { target: 1, timeout_seconds: 60 }
    );
}

#[test]
fn shared_token_must_be_the_token() {
    let auth = Auth::Token(TokenAuth { token: "s3cret".to_string() });
    assert_eq!(check_auth_token(&Verdict::NotConfigured, "s3cret", &auth), Ok(()));
    assert_eq!(
        check_auth_token(&Verdict::Rejected, "s3cret ", &auth),
        Err(TokenError::IncorrectToken)
    );
    assert_eq!(check_auth_token(&Verdict::Rejected, "", &auth), Err(TokenError::IncorrectToken));
}

#[test]
fn identity_token_needs_issuer_signature_and_rule() {
    let auth = oidc(vec![rule(&[("repository", "embassy-rs/embassy")])]);
    assert_eq!(
        check_auth_token(&Verdict::NotConfigured, "t", &auth),
        Err(TokenError::OidcNotConfigured)
    );
    assert_eq!(check_auth_token(&Verdict::Rejected, "t", &auth), Err(TokenError::BadToken));
    let good = Verdict::Claims(claims(&[("repository", Some("embassy-rs/embassy"))]));
    assert_eq!(check_auth_token(&good, "t", &auth), Ok(()));
    let other = Verdict::Claims(claims(&[("repository", Some("someone/else"))]));
    assert_eq!(check_auth_token(&other, "t", &auth), Err(TokenError::NoRuleMatched));
}

#[test]
fn rules_on_claims() {
    let said = claims(&[("a", Some("1")), ("b", Some("2")), ("n", None), ("a", Some("3"))]);
    assert!(claims_match(&vec![rule(&[("a", "1")])], &said));
    assert!(claims_match(&vec![rule(&[("a", "3")])], &said));
    assert!(claims_match(&vec![rule(&[("a", "1"), ("b", "2")])], &said));
    assert!(!claims_match(&vec![rule(&[("a", "1"), ("b", "3")])], &said));
    assert!(claims_match(&vec![rule(&[("a", "9")]), rule(&[("b", "2")])], &said));
    assert!(!claims_match(&vec![rule(&[("n", "")])], &said));
    assert!(!claims_match(&vec![rule(&[("c", "1")])], &said));
    assert!(claims_match(&vec![rule(&[])], &said));
    assert!(claims_match(&vec![rule(&[])], &vec![]));
    assert!(!claims_match(&vec![], &said));
}

#[test]
fn first_way_that_lets_in_counts() {
    let auths = vec![
        Auth::Token(TokenAuth { token: "one".to_string() }),
        oidc(vec![rule(&[("sub", "ci")])]),
        Auth::Token(TokenAuth { token: "two".to_string() }),
        Auth::Token(TokenAuth { token: "two".to_string() }),
    ];
    let ci = Verdict::Claims(claims(&[("sub", Some("ci"))]));
    assert_eq!(check_token("two", &Verdict::Rejected, &auths), Some(2));
    assert_eq!(check_token("one", &ci, &auths), Some(0));
    assert_eq!(check_token("jwt", &ci, &auths), Some(1));
    assert_eq!(check_token("jwt", &Verdict::Rejected, &auths), None);
    assert_eq!(check_token("one", &Verdict::Rejected, &vec![]), None);
}

#[test]
fn issuer_configuration_address() {
    assert_eq!(
        config_url("https://token.actions.githubusercontent.com"),
        "https://token.actions.githubusercontent.com/.well-known/openid-configuration"
    );
    assert_eq!(config_url("https://i.example/"), "https://i.example/.well-known/openid-configuration");
    assert_eq!(config_url(""), "/.well-known/openid-configuration");
}

fn key(kid: &str, alg: &str) -> JsonWebKey {
    JsonWebKey {
        kty: "RSA".to_string(),
        kid: kid.to_string(),
        alg: alg.to_string(),
        n: "sXchDaQebHnPiGvyDOAT4saGEUetSyo9MKLOoWFsueri23bOdgWp4Dy1WlUzewbgBHod5pcM9H95GQRV3JDXboIRROSBigeC5yjU1hGzHHyXss8UDprecbAYxknTcQkhslANGRUZmdTOQ5qTRsLAt6BTYuyvVRdhS8exSZEy_c4gs_7svlJJQ4H9_NxsiIoLwAEk7-Q3UXERGYw_75IDrGA84-lA_-Ct4eTlXHBIY2EaV7t7LjJaynVJCpkv4LKjTTAumiGUIuQhrNhZLuF_RJLqHpM2kgWFLU7-VTdL1VbC2tejvcI2BlMkEpk1BzBZI0KQB0GaDWFLN-aEAw3vRw".to_string(),
        e: "AQAB".to_string(),
    }
}

fn client() -> Client {
    Client {
        issuer: "https://issuer.example".to_string(),
        keys: vec![key("k0", "RS256"), key("k1", "RS256"), key("k2", "RS256"), key("k1", "ES256")],
    }
}

#[test]
fn token_header_is_read() {
    let header = read_header(RS256_K1).unwrap();
    assert_eq!(header.kid.as_deref(), Some("k1"));
    assert_eq!(header.alg, "RS256");
    let header = read_header(HS256_NO_KID).unwrap();
    assert_eq!(header.kid, None);
    assert_eq!(header.alg, "HS256");
    assert!(read_header("no dots").is_none());
    assert!(read_header("a.b.c").is_none());
}

#[test]
fn key_for_a_header() {
    let c = client();
    let header = |kid: Option<&str>, alg: &str| {
        Some(TokenHeader { kid: kid.map(str::to_string), alg: alg.to_string() })
    };
    assert_eq!(c.select_key(&header(Some("k1"), "RS256")), Ok(1));
    assert_eq!(c.select_key(&header(Some("k0"), "RS256")), Ok(0));
    assert_eq!(c.select_key(&None), Err(OidcError::BadHeader));
    assert_eq!(c.select_key(&header(None, "RS256")), Err(OidcError::NoKeyId));
    assert_eq!(c.select_key(&header(Some("k9"), "RS256")), Err(OidcError::UnknownKey));
    assert_eq!(c.select_key(&header(Some("k1"), "ES256")), Err(OidcError::AlgMismatch));
    let es = Client { issuer: String::new(), keys: vec![key("k2", "ES256")] };
    assert_eq!(es.select_key(&header(Some("k2"), "ES256")), Err(OidcError::UnsupportedAlgorithm));
}

#[test]
fn tokens_that_no_key_vouches_for_are_rejected() {
    let c = client();
    assert!(matches!(c.validate_token("garbage"), Verdict::Rejected));
    assert!(matches!(c.validate_token(HS256_NO_KID), Verdict::Rejected));
    assert!(matches!(c.validate_token(ES256_K2), Verdict::Rejected));
    assert!(matches!(c.validate_token(RS256_K1), Verdict::Rejected));
    assert!(matches!(verdict_for(&None, RS256_K1), Verdict::NotConfigured));
    assert!(matches!(verdict_for(&Some(c), RS256_K1), Verdict::Rejected));
}

fn attached(vid: u16, pid: u16, serial: &str) -> ProbeInfo {
    ProbeInfo {
        identifier: "J-Link".to_string(),
        vendor_id: vid,
        product_id: pid,
        serial_number: Some(serial.to_string()),
        probe_type: "J-Link".to_string(),
    }
}

#[test]
fn target_list_says_which_probes_are_up() {
    let list = api::targets(&config().targets, &vec![attached(0x1366, 0x0101, "000683")]);
    assert_eq!(list.targets.len(), 3);
    assert_eq!(list.targets[0].name, "nrf52");
    assert!(list.targets[0].up);
    assert_eq!(list.targets[1].name, "rp2040");
    assert_eq!(list.targets[1].chip, "RP2040");
    assert!(!list.targets[1].up);
    assert!(!list.targets[2].up);
    assert_eq!(list.targets[1].probe.to_text(), "2e8a:c:E661");
    assert_eq!(list.targets[1].speed, Some(4000));
    assert!(list.targets[1].power_reset);
    let none = api::targets(&config().targets, &vec![]);
    assert!(none.targets.iter().all(|t| !t.up));
}

#[test]
fn status_page() {
    let mut configured = config().targets;
    configured.truncate(2);
    let list = api::targets(&configured, &vec![attached(0x1366, 0x0101, "000683")]);
    let page = handle_home(&list, "1.0.0");
    assert_eq!(
        page,
        "<html><head><title>Teleprobe Status</title></head><body><h1>Teleprobe Status</h1>\
         <table><tr><th>Name</th><th>Chip</th><th>Up</th></tr>\
         <tr><td>nrf52</td><td>nRF52840_xxAA</td><td>true</td></tr>\
         <tr><td>rp2040</td><td>RP2040</td><td>false</td></tr>\
         </table><br><br> -- <a href=\"https://github.com/embassy-rs/teleprobe\">Teleprobe</a> \
         version 1.0.0</body></html>"
    );
}

#[test]
fn one_lock_slot_per_target_name() {
    let mut locks = TargetLocks::new();
    assert_eq!(locks.len(), 0);
    assert_eq!(locks.slot("rp2040"), 0);
    assert_eq!(locks.slot("nrf52"), 1);
    assert_eq!(locks.slot("rp2040"), 0);
    assert_eq!(locks.slot("nrf52"), 1);
    assert_eq!(locks.slot(""), 2);
    assert_eq!(locks.slot("RP2040"), 3);
    assert_eq!(locks.len(), 4);
}

const HEADER: &str = "eyJhbGciOiJSUzI1NiIsImtpZCI6ImsxIiwidHlwIjoiSldUIn0";

fn modulus() -> String {
    [
        "2zCr0pk9j5cjXed8XwLznVHxP5cUz61NmbIUlItfV8bItneN",
        "-roKXwftLt2wyYo5wYr8zNIzAJoJMjr--zjD-zK_HggP8FfF",
        "sAuddKGOCvXF04wcA_4mOVbLUSjaI90bSD_k-J4r2vWM0ckl",
        "b2IrJi2xqXZAqYP179da2i6rIkvX0uExHmkH4l4VJRJBigVV",
        "Iv9iMlv9IJCmkZ1ufwuxdGTCCXNv3Z0qexbFwTklqlKCGGEv",
        "dADzjEJdDxKt7EDMHXgA9JUiK6GRLE-jA3JjEbjW-GFKxMvG",
        "L35ouT7q2IAJNqpZg8l4phl1QrJ5UQFU4aYihyC4l9GsMs8P",
        "5eo7xw",
    ]
    .concat()
}

fn signed_token() -> String {
    let payload = [
        "eyJpc3MiOiJodHRwczovL2lzc3Vlci5leGFtcGxlIiwiZXhw",
        "Ijo0MTAyNDQ0ODAwLCJyZXBvc2l0b3J5IjoiZW1iYXNzeS1y",
        "cy9lbWJhc3N5IiwicnVuIjo3LCJyZWYiOiJyZWZzL2hlYWRz",
        "L21haW4ifQ",
    ];
    let signature = [
        "znGVDIjJEx0KTa46pPMZXEoWOUHk01bCh3sP2KviYBn7g1gQ",
        "MAuJXZt8swQAfIXU7cyd-jDijg35eYSo8aPKoTYUlxYAOijv",
        "iSGUybwOsvx2u_l0aL9gQjlo4fMCr67ONK5grHwDYKQIIiFq",
        "1tyC2Y-E-LNLOkH_unvVue_eCYZz-AekWc5rj3NSORMvapac",
        "Jyw02iaEohZCYAYFaU3cvFMFcsY22748QDplrTNOE-FrbDVJ",
        "wg30wIHKyb8IjWgKRCrykoJjli3gL_DnEEP6Cy_1URdNA9Nw",
        "iBXS--rlcSQCX-_H4Ypvr11ZZ3msrDAJga-yfDTcOq-_rLTM",
        "4El3Rw",
    ];
    [HEADER.to_string(), payload.concat(), signature.concat()].join(".")
}

fn expired_token() -> String {
    let payload = [
        "eyJpc3MiOiJodHRwczovL2lzc3Vlci5leGFtcGxlIiwiZXhw",
        "IjoxMDAwMDAwMDAwLCJyZXBvc2l0b3J5IjoiZW1iYXNzeS1y",
        "cy9lbWJhc3N5In0",
    ];
    let signature = [
        "YaIAMWgGvtNXqQCBQyQNrYIMIYt_vcRve6Ay5OIQB8Dls-gU",
        "NrVSAIULIn6DbqrpmvRk0nw4EkqOSBc9ggRmHhbZ1jQmzD6S",
        "jrbs35RSWMNeqrJMx3Ha-rbiaOq2t2FbM_fAqzM0bFneYf_V",
        "pjD_sANe-C4JANE4GLYHvre7CdfSpg3CoeyxDXkv0jMUnArZ",
        "YgACyxa7ptUJd9kuFOWEyJvEdVMGPi2pED36C0sitUr225UY",
        "RablZjZLrVxkJ7AFbHjzMsU-EOckDZ5GUwFyl3ygYGLjsNY4",
        "eGtClqfug4NEwJUVu1CuOgrAOpnqlf3WhFqePIkxrVyGbkue",
        "FA5xVw",
    ];
    [HEADER.to_string(), payload.concat(), signature.concat()].join(".")
}

fn foreign_token() -> String {
    let payload = [
        "eyJpc3MiOiJodHRwczovL2V2aWwuZXhhbXBsZSIsImV4cCI6",
        "NDEwMjQ0NDgwMCwicmVwb3NpdG9yeSI6ImVtYmFzc3ktcnMv",
        "ZW1iYXNzeSJ9",
    ];
    let signature = [
        "Y_GiCSz9iVQVkgh6PsqqW7FiMvRskYDcbS111n6W-uAtDKwA",
        "keNavT42-6O3OGm0XICwy52ZphOuEkdEamxuuDJVCS513BP4",
        "4gDBJ73Vuaq7HCR-lNKV-_5BznXK8zACfTGO5JXSYRSIJLum",
        "SN6PdrnSovJESfWNHu5CAjBZMvssc5eNBoPi30QR6fy9M844",
        "U0u2h8J7Ve1bk9uYFtG2DeU7BXiDIuYVzT_H7pM9ilzrwNCk",
        "KlMzD80QriUlHUTGuIPOZyTALcLULo-pQiPXOmuIgaClGNk3",
        "YHhikhsf_Tx7pXQOvXFrBUn4UWKMa8lMYy-xCvKVD62NFoUI",
        "X_oqVA",
    ];
    [HEADER.to_string(), payload.concat(), signature.concat()].join(".")
}

fn vouching_client() -> Client {
    Client {
        issuer: "https://issuer.example".to_string(),
        keys: vec![JsonWebKey {
            kty: "RSA".to_string(),
            kid: "k1".to_string(),
            alg: "RS256".to_string(),
            n: modulus(),
            e: "AQAB".to_string(),
        }],
    }
}

#[test]
fn token_that_the_key_vouches_for_hands_out_its_claims() {
    let verdict = vouching_client().validate_token(&signed_token());
    let mut claims = match verdict {
        Verdict::Claims(claims) => claims,
        other => panic!("the token is good, yet: {:?}", other),
    };
    claims.sort();
    assert_eq!(
        claims,
        vec![
            ("exp".to_string(), None),
            ("iss".to_string(), Some("https://issuer.example".to_string())),
            ("ref".to_string(), Some("refs/heads/main".to_string())),
            ("repository".to_string(), Some("embassy-rs/embassy".to_string())),
            ("run".to_string(), None),
        ]
    );
}

#[test]
fn token_of_the_right_repository_is_let_in() {
    let client = Some(vouching_client());
    let auths = vec![oidc(vec![rule(&[("repository", "embassy-rs/embassy"), ("ref", "refs/heads/main")])])];
    let token = signed_token();
    let header = format!("Bearer {}", token);
    assert_eq!(check_auth(&header, &verdict_for(&client, &token), &auths), Ok(0));
    let strangers = vec![oidc(vec![rule(&[("repository", "someone/else")])])];
    assert_eq!(
        check_auth(&header, &verdict_for(&client, &token), &strangers),
        Err(AuthError::Unauthorized)
    );
}

#[test]
fn token_that_is_expired_or_of_another_issuer_is_rejected() {
    let client = vouching_client();
    assert!(matches!(client.validate_token(&expired_token()), Verdict::Rejected));
    assert!(matches!(client.validate_token(&foreign_token()), Verdict::Rejected));
    let mut tampered = signed_token();
    tampered.pop();
    tampered.push('A');
    assert!(matches!(client.validate_token(&tampered), Verdict::Rejected));
}

#[test]
fn key_is_picked_from_the_header_of_the_token() {
    let c = client();
    assert_eq!(c.key_of(RS256_K1), Ok(1));
    assert_eq!(c.key_of(HS256_NO_KID), Err(OidcError::NoKeyId));
    assert_eq!(c.key_of(ES256_K2), Err(OidcError::AlgMismatch));
    assert_eq!(c.key_of("garbage"), Err(OidcError::BadHeader));
    assert_eq!(vouching_client().key_of(&signed_token()), Ok(0));
}

#[test]
fn verdict_is_made_of_what_the_key_vouches_for() {
    assert!(matches!(verdict_of(None), Verdict::Rejected));
    match verdict_of(Some(claims(&[("sub", Some("ci")), ("n", None)]))) {
        Verdict::Claims(c) => assert_eq!(c, claims(&[("sub", Some("ci")), ("n", None)])),
        other => panic!("claims were vouched for, yet: {:?}", other),
    }
    match verdict_of(Some(vec![])) {
        Verdict::Claims(c) => assert!(c.is_empty()),
        other => panic!("no claims are claims too, yet: {:?}", other),
    }
}
