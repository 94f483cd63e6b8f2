use spotick::auth::{
    check_auth_response, generate_challenge, CodeChallengeMethod, OAuth2PKCEAuthenticator,
    CODE_CHARS, CODE_VERIFIER_LEN, STATE_LEN,
};
use spotick::autostart::{
    autostart_change, disable_autostart, enable_autostart, is_autostart_enabled, RegistryChange,
};
use spotick::settings::{get_default_save_path, AppSettings};
use spotick::util::build_query_string;

#[derive(Default, PartialEq, Debug)]
struct TestSettings {
    int: u32,
    hello: String,
    nice: bool,
}

fn names(v: &[&str]) -> Vec<String> {
    v.iter().map(|s| s.to_string()).collect()
}

#[test]
fn correct_default_save_path() {
    let default_path = get_default_save_path("C:\\Users\\test\\AppData\\Roaming");
    assert_eq!(default_path, "C:\\Users\\test\\AppData\\Roaming\\spotick\\settings.json");
}

#[test]
fn save_path_does_not_double_separators() {
    assert_eq!(get_default_save_path("D:\\data\\"), "D:\\data\\spotick\\settings.json");
    assert_eq!(get_default_save_path(""), "\\spotick\\settings.json");
}

#[test]
fn settings_start_at_default_and_can_be_changed() {
    let mut settings = AppSettings::<TestSettings>::default("C:\\AppData");
    assert_eq!(settings.save_path(), "C:\\AppData\\spotick\\settings.json");
    assert_eq!(settings.get_settings(), &TestSettings::default());
    settings.get_settings_mut().nice = true;
    settings.get_settings_mut().hello = "world".into();
    assert!(settings.get_settings().nice);
    assert_eq!(settings.get_settings().hello, "world");
    settings.set_settings(TestSettings { int: 3, hello: String::new(), nice: false });
    assert_eq!(settings.get_settings().int, 3);
    let other = AppSettings::<TestSettings>::new("x.json".to_string());
    assert_eq!(other.save_path(), "x.json");
}

#[test]
fn query_string_joins_pairs() {
    assert_eq!(build_query_string(&[]), "");
    assert_eq!(build_query_string(&[("a", "1")]), "a=1");
    assert_eq!(build_query_string(&[("a", "1"), ("b", ""), ("c d", "x&y")]), "a=1&b=&c d=x&y");
}

#[test]
fn autostart_decisions() {
    let on = names(&["OneDrive", "spotick"]);
    let off = names(&["OneDrive", "Spotick"]);
    assert!(is_autostart_enabled(&on));
    assert!(!is_autostart_enabled(&off));
    assert!(!is_autostart_enabled(&Vec::new()));
    assert_eq!(enable_autostart(&on), None);
    assert_eq!(enable_autostart(&off), Some(RegistryChange::SetValue));
    assert_eq!(disable_autostart(&on), Some(RegistryChange::DeleteValue));
    assert_eq!(disable_autostart(&off), None);
    assert_eq!(autostart_change(true, &off), Some(RegistryChange::SetValue));
    assert_eq!(autostart_change(false, &on), Some(RegistryChange::DeleteValue));
}

#[test]
fn challenge_method_names() {
    assert_eq!(CodeChallengeMethod::Sha256.to_string(), "S256");
    assert_eq!(CodeChallengeMethod::Plain.to_string(), "plain");
}

#[test]
fn challenge_of_the_standard_example() {
    assert_eq!(
        generate_challenge("dBjftJeZ4CVP-mB92K27uhbUJU1p1r_wW1gFWFOEjXk"),
        "E9Melhoa2OwvFrEMTJguCHaoeK1t8URWbuGJSstw-cM"
    );
}

fn authenticator(method: CodeChallengeMethod) -> OAuth2PKCEAuthenticator {
    OAuth2PKCEAuthenticator::new(
        "c1337".to_string(),
        "user-read-private user-read-email".to_string(),
        "https://accounts.spotify.com/".to_string(),
        "http://localhost:14588".to_string(),
        method,
    )
}

#[test]
fn verifier_draws_from_code_chars() {
    let auth = authenticator(CodeChallengeMethod::Sha256);
    let v = auth.generate_verifier(CODE_VERIFIER_LEN).expect("entropy available");
    assert_eq!(v.chars().count(), 64);
    assert!(v.chars().all(|c| CODE_CHARS.contains(c)));
    let s = auth.generate_verifier(STATE_LEN).unwrap();
    assert_eq!(s.len(), 5);
}

#[test]
fn challenge_follows_the_method() {
    let plain = authenticator(CodeChallengeMethod::Plain);
    assert_eq!(plain.challenge_for("abc"), "abc");
    let sha = authenticator(CodeChallengeMethod::Sha256);
    assert_eq!(
        sha.challenge_for("dBjftJeZ4CVP-mB92K27uhbUJU1p1r_wW1gFWFOEjXk"),
        "E9Melhoa2OwvFrEMTJguCHaoeK1t8URWbuGJSstw-cM"
    );
}

#[test]
fn authorization_query_lists_all_parameters() {
    let auth = authenticator(CodeChallengeMethod::Sha256);
    assert_eq!(
        auth.authorization_query("ab3De", "CHAL"),
        "client_id=c1337&response_type=code&redirect_uri=http://localhost:14588&state=ab3De\
         &scope=user-read-private user-read-email&code_challenge_method=S256&code_challenge=CHAL"
    );
}

#[test]
fn auth_response_checks() {
    let s = |v: &str| Some(v.to_string());
    assert_eq!(check_auth_response("st", s("st"), None, s("6969")), Ok("6969".to_string()));
    assert_eq!(
        check_auth_response("st", s("xx"), None, s("6969")),
        Err("state missing or invalid".to_string())
    );
    assert_eq!(
        check_auth_response("st", None, None, s("6969")),
        Err("state missing or invalid".to_string())
    );
    assert_eq!(
        check_auth_response("st", s("st"), s("access_denied"), s("6969")),
        Err("access_denied".to_string())
    );
    assert_eq!(
        check_auth_response("st", s("st"), None, None),
        Err("'code' or 'error' missing".to_string())
    );
}

#[test]
fn token_request_forms() {
    let auth = authenticator(CodeChallengeMethod::Plain);
    let p = |k: &str, v: &str| (k.to_string(), v.to_string());
    assert_eq!(
        auth.token_request_params("6969", "verifier"),
        vec![
            p("grant_type", "authorization_code"),
            p("code", "6969"),
            p("redirect_uri", "http://localhost:14588"),
            p("client_id", "c1337"),
            p("code_verifier", "verifier"),
        ]
    );
    assert_eq!(
        auth.refresh_request_params("r1"),
        vec![p("grant_type", "refresh_token"), p("refresh_token", "r1"), p("client_id", "c1337")]
    );
}
