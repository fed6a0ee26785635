use mhf_iel::account::{auth_request, check_status, create_character_request, request_url};
use mhf_iel::endpoint::find_written_port;
use mhf_iel::config::{build_config, char_ids, map_stalls, DEFAULT_SIGN_PORT};
use mhf_iel::kinds::stall_from_name;
use mhf_iel::{
    run, AuthMode, Character, CliFlags, Error, LoginResponse, MezFes, MezFesStall, MhfConfig,
    MhfVersion, Notice, RequestKind, User,
};

fn character(id: u32, name: &str) -> Character {
    Character {
        id,
        name: name.to_string(),
        is_female: false,
        weapon: 3,
        hr: 7,
        gr: 100,
        last_login: 0,
    }
}

fn login_with(chars: Vec<Character>, token: &str, stalls: &[&str]) -> LoginResponse {
    LoginResponse {
        current_ts: 1_700_000_000,
        expiry_ts: 1_700_086_400,
        entrance_count: 2,
        notices: vec![
            Notice { flags: 1, data: "first".to_string() },
            Notice { flags: 2, data: "second".to_string() },
        ],
        user: User { token_id: 42, token: token.to_string(), rights: 14 },
        characters: chars,
        mez_fes: MezFes {
            id: 9,
            start: 10,
            end: 20,
            solo_tickets: 5,
            group_tickets: 1,
            stalls: stalls.iter().map(|s| s.to_string()).collect(),
        },
        patch_server: "http://patch.example".to_string(),
    }
}

fn config_for(server: &str) -> Result<MhfConfig, Error> {
    let ch = character(11, "Hunter");
    let login = login_with(vec![character(11, "Hunter"), character(12, "Other")], "0123456789abcdef", &[]);
    build_config(server, login, 11, &ch)
}

#[test]
fn stall_names_map_to_kinds() {
    let names = [
        ("TokotokoPartnya", MezFesStall::TokotokoPartnya),
        ("Pachinko", MezFesStall::Pachinko),
        ("VolpakkunTogether", MezFesStall::VolpakkunTogether),
        ("GoocooScoop", MezFesStall::GoocooScoop),
        ("Nyanrendo", MezFesStall::Nyanrendo),
        ("HoneyPanic", MezFesStall::HoneyPanic),
        ("DokkanBattleCats", MezFesStall::DokkanBattleCats),
        ("PointStall", MezFesStall::PointStall),
        ("StallMap", MezFesStall::StallMap),
    ];
    for (name, kind) in names {
        assert_eq!(stall_from_name(name), Some(kind));
    }
    assert_eq!(stall_from_name("pachinko"), None);
    assert_eq!(stall_from_name("Pachinko2"), None);
    assert_eq!(stall_from_name(""), None);
}

#[test]
fn unknown_stalls_dropped_and_order_kept() {
    let names: Vec<String> = ["StallMap", "Mystery", "Pachinko", "", "HoneyPanic", "Pachinko"]
        .iter()
        .map(|s| s.to_string())
        .collect();
    assert_eq!(
        map_stalls(&names),
        vec![MezFesStall::StallMap, MezFesStall::Pachinko, MezFesStall::HoneyPanic, MezFesStall::Pachinko]
    );
    assert_eq!(map_stalls(&vec!["Nope".to_string()]), vec![]);
    assert_eq!(map_stalls(&vec![]), vec![]);
}

#[test]
fn wire_codes() {
    assert_eq!(MezFesStall::TokotokoPartnya.code(), 2);
    assert_eq!(MezFesStall::StallMap.code(), 10);
    assert_eq!(MezFesStall::from_code(7), Some(MezFesStall::HoneyPanic));
    assert_eq!(MezFesStall::from_code(1), None);
    assert_eq!(MezFesStall::from_code(11), None);
    assert_eq!(MhfVersion::default(), MhfVersion::ZZ);
    assert_eq!(MhfVersion::ZZ.code(), 1);
    assert_eq!(MhfVersion::from_code(2), Some(MhfVersion::F5));
    assert_eq!(MhfVersion::from_code(0), None);
    assert_eq!(CliFlags::from_code(5), Some(CliFlags::DmmBoot));
    assert_eq!(CliFlags::NpMhfoTest.code(), 10);
    assert_eq!(CliFlags::from_code(11), None);
}

#[test]
fn explicit_port_is_kept() {
    let cfg = config_for("http://127.0.0.1:8080").unwrap();
    assert_eq!(cfg.server_host, "127.0.0.1");
    assert_eq!(cfg.server_port, 8080);
}

#[test]
fn missing_port_defaults_to_sign_port() {
    let cfg = config_for("http://example.com/api").unwrap();
    assert_eq!(cfg.server_host, "example.com");
    assert_eq!(cfg.server_port, 53312);
    assert_eq!(DEFAULT_SIGN_PORT, 53312);
    let cfg = config_for("https://example.com").unwrap();
    assert_eq!(cfg.server_port, 53312);
    let cfg = config_for("http://example.com:/x").unwrap();
    assert_eq!(cfg.server_port, 53312);
}

#[test]
fn written_default_port_is_kept() {
    let cfg = config_for("http://10.0.0.1:80").unwrap();
    assert_eq!(cfg.server_host, "10.0.0.1");
    assert_eq!(cfg.server_port, 80);
    let cfg = config_for("https://example.com:443/api").unwrap();
    assert_eq!(cfg.server_port, 443);
}

#[test]
fn written_port_in_text() {
    assert_eq!(find_written_port("http://h:80"), Some(80));
    assert_eq!(find_written_port("http://user:pw@h:8080/a:9"), Some(8080));
    assert_eq!(find_written_port("http://[::1]:53310?q=:1"), Some(53310));
    assert_eq!(find_written_port("http://[::1]/"), None);
    assert_eq!(find_written_port("http://h/a:5"), None);
    assert_eq!(find_written_port("http://h#x:5"), None);
    assert_eq!(find_written_port("http://h:"), None);
    assert_eq!(find_written_port("http://h:65535"), Some(65535));
    assert_eq!(find_written_port("http://h:65536"), None);
    assert_eq!(find_written_port("http://h:8a"), None);
    assert_eq!(find_written_port("http://h:007"), Some(7));
    assert_eq!(find_written_port("h:80"), None);
    assert_eq!(find_written_port(""), None);
}

#[test]
fn bad_endpoint_is_refused() {
    assert!(matches!(config_for("not a url"), Err(Error::InvalidServerUrl)));
    assert!(matches!(config_for(""), Err(Error::InvalidServerUrl)));
    assert!(matches!(config_for("mailto:someone@example.com"), Err(Error::InvalidServerUrl)));
}

#[test]
fn config_fields_come_from_the_session() {
    let ch = character(12, "Other");
    let login = login_with(
        vec![character(11, "Hunter"), character(12, "Other")],
        "0123456789abcdef",
        &["PointStall", "Unknown", "GoocooScoop"],
    );
    let cfg = build_config("http://10.0.0.5:9000", login, 12, &ch).unwrap();
    assert_eq!(cfg.char_id, 12);
    assert_eq!(cfg.char_name, "Other");
    assert_eq!(cfg.char_hr, 7);
    assert_eq!(cfg.char_gr, 100);
    assert_eq!(cfg.char_ids, vec![11, 12]);
    assert!(!cfg.char_new);
    assert_eq!(cfg.user_token_id, 42);
    assert_eq!(cfg.user_token, "0123456789abcdef");
    assert_eq!(cfg.user_name, "");
    assert_eq!(cfg.user_password, "");
    assert_eq!(cfg.user_rights, 14);
    assert_eq!(cfg.entrance_count, 2);
    assert_eq!(cfg.current_ts, 1_700_000_000);
    assert_eq!(cfg.expiry_ts, 1_700_086_400);
    assert_eq!(cfg.notices.len(), 2);
    assert_eq!(cfg.notices[0].flags, 1);
    assert_eq!(cfg.notices[1].data, "second");
    assert_eq!(cfg.mez_event_id, 9);
    assert_eq!(cfg.mez_start, 10);
    assert_eq!(cfg.mez_end, 20);
    assert_eq!(cfg.mez_solo_tickets, 5);
    assert_eq!(cfg.mez_group_tickets, 1);
    assert_eq!(cfg.mez_stalls, vec![MezFesStall::PointStall, MezFesStall::GoocooScoop]);
    assert_eq!(cfg.version, MhfVersion::ZZ);
    assert!(cfg.mhf_folder.is_none());
    assert!(cfg.mhf_flags.is_none());
}

#[test]
fn ids_in_order() {
    assert_eq!(char_ids(&vec![character(5, "a"), character(3, "b"), character(5, "c")]), vec![5, 3, 5]);
    assert_eq!(char_ids(&vec![]), Vec::<u32>::new());
}

#[test]
fn request_urls() {
    assert_eq!(request_url("http://h:1", RequestKind::Login), "http://h:1/login");
    assert_eq!(request_url("http://h:1", RequestKind::Register), "http://h:1/register");
    assert_eq!(request_url("http://h:1", RequestKind::CreateCharacter), "http://h:1/character/create");
}

#[test]
fn credentials_are_json() {
    let req = auth_request("http://127.0.0.1:8080", AuthMode::Login, "user", "pw");
    assert_eq!(req.kind, RequestKind::Login);
    assert_eq!(req.url, "http://127.0.0.1:8080/login");
    assert_eq!(req.body, r#"{"username":"user","password":"pw"}"#);
    let req = auth_request("http://s", AuthMode::Register, "a\"b", "c\\d");
    assert_eq!(req.kind, RequestKind::Register);
    assert_eq!(req.url, "http://s/register");
    assert_eq!(req.body, r#"{"username":"a\"b","password":"c\\d"}"#);
}

#[test]
fn token_is_json() {
    let req = create_character_request("http://s", "tok\n");
    assert_eq!(req.kind, RequestKind::CreateCharacter);
    assert_eq!(req.url, "http://s/character/create");
    assert_eq!(req.body, r#"{"token":"tok\n"}"#);
}

#[test]
fn status_codes() {
    assert_eq!(check_status(RequestKind::Login, 200, "ok".to_string()).unwrap(), "ok");
    assert_eq!(check_status(RequestKind::Login, 299, "x".to_string()).unwrap(), "x");
    match check_status(RequestKind::Register, 401, "denied".to_string()) {
        Err(Error::ServerError { request, status, body }) => {
            assert_eq!(request, RequestKind::Register);
            assert_eq!(status, 401);
            assert_eq!(body, "denied");
        }
        other => panic!("unexpected {:?}", other),
    }
    assert!(matches!(
        check_status(RequestKind::CreateCharacter, 300, String::new()),
        Err(Error::ServerError { status: 300, .. })
    ));
    assert!(matches!(
        check_status(RequestKind::Login, 199, String::new()),
        Err(Error::ServerError { status: 199, .. })
    ));
}

#[test]
fn run_checks_token_length() {
    let cfg = config_for("http://h").unwrap();
    let cfg = run(cfg).unwrap();
    assert_eq!(cfg.user_token, "0123456789abcdef");

    let mut short = config_for("http://h").unwrap();
    short.user_token = "0123456789abcde".to_string();
    assert!(matches!(run(short), Err(Error::TokenLength)));

    let mut long = config_for("http://h").unwrap();
    long.user_token = "0123456789abcdef0".to_string();
    assert!(matches!(run(long), Err(Error::TokenLength)));

    assert!(mhf_iel::token_launchable("0123456789abcdef"));
    assert!(!mhf_iel::token_launchable(""));

    // Sixteen characters, more than sixteen bytes.
    let mut wide = config_for("http://h").unwrap();
    wide.user_token = "éééééééééééééééé".chars().take(16).collect();
    assert!(run(wide).is_ok());
}

#[test]
fn default_config_is_blank() {
    let cfg = MhfConfig::default();
    assert_eq!(cfg.char_id, 0);
    assert!(cfg.char_ids.is_empty());
    assert_eq!(cfg.version, MhfVersion::ZZ);
    assert!(cfg.mhf_folder.is_none());
    assert!(matches!(run(cfg), Err(Error::TokenLength)));
}

#[test]
fn token_escapes() {
    let req = create_character_request("http://s", "\u{1}\u{8}\u{c}\r\t\u{1f}é/");
    assert_eq!(req.body, "{\"token\":\"\\u0001\\b\\f\\r\\t\\u001fé/\"}");
}
