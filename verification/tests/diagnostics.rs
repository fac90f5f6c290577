use netmount::diagnostics::{
    check_export_path, export_plan, is_sensitive_key, join_warnings, redact_json, redaction_text,
    resolve_tilde, tail_start, warning_line, ExportEntry, ExportError, ExportKind, TildePath,
    LOG_TAIL_BYTES, META_ENTRY, MIN_TAIL_BYTES, WARNINGS_ENTRY,
};
use netmount::json::Json;

#[test]
fn an_archive_name_is_trimmed_and_has_to_end_with_zip() {
    assert_eq!(check_export_path("out.zip"), Ok("out.zip".to_string()));
    assert_eq!(check_export_path("  ~/diag/Out.ZIP\n"), Ok("~/diag/Out.ZIP".to_string()));
    assert_eq!(check_export_path(".zip"), Ok(".zip".to_string()));
    assert_eq!(check_export_path("a.Zip"), Ok("a.Zip".to_string()));
}

#[test]
fn an_empty_archive_name_is_refused() {
    assert_eq!(check_export_path(""), Err(ExportError::PathRequired));
    assert_eq!(check_export_path(" \t\n"), Err(ExportError::PathRequired));
    assert_eq!(ExportError::PathRequired.message(), "Output path is required");
}

#[test]
fn an_archive_name_without_zip_is_refused() {
    assert_eq!(check_export_path("out"), Err(ExportError::NotZip));
    assert_eq!(check_export_path("zip"), Err(ExportError::NotZip));
    assert_eq!(check_export_path("out.zip.txt"), Err(ExportError::NotZip));
    assert_eq!(check_export_path("out.zi"), Err(ExportError::NotZip));
    assert_eq!(check_export_path("out.zıp"), Err(ExportError::NotZip));
    assert_eq!(check_export_path("out.zip x"), Err(ExportError::NotZip));
    assert_eq!(ExportError::NotZip.message(), "Output file must end with .zip");
}

#[test]
fn the_tail_of_a_log_is_at_most_the_wanted_bytes_and_at_least_a_kibibyte() {
    assert_eq!(MIN_TAIL_BYTES, 1024);
    assert_eq!(LOG_TAIL_BYTES, 512 * 1024);
    assert_eq!(tail_start(0, LOG_TAIL_BYTES), 0);
    assert_eq!(tail_start(524_288, LOG_TAIL_BYTES), 0);
    assert_eq!(tail_start(524_289, LOG_TAIL_BYTES), 1);
    assert_eq!(tail_start(1_000_000, LOG_TAIL_BYTES), 475_712);
    assert_eq!(tail_start(5000, 0), 3976);
    assert_eq!(tail_start(5000, 10), 3976);
    assert_eq!(tail_start(5000, 1024), 3976);
    assert_eq!(tail_start(5000, 1025), 3975);
    assert_eq!(tail_start(100, 10), 0);
    assert_eq!(tail_start(u64::MAX, u64::MAX), 0);
    assert_eq!(tail_start(u64::MAX, 1), u64::MAX - 1024);
}

#[test]
fn sensitive_keys_are_known_in_any_case() {
    for key in [
        "password",
        "pass",
        "passwd",
        "token",
        "secret",
        "access_key",
        "accesskey",
        "refresh_token",
        "client_secret",
        "private_key",
        "apikey",
        "api_key",
        "Password",
        "API_KEY",
        "Client_Secret",
    ] {
        assert!(is_sensitive_key(key), "{}", key);
    }
    for key in ["", "user", "passwords", "pass word", " password", "tokens", "api-key", "ｐass"] {
        assert!(!is_sensitive_key(key), "{}", key);
    }
}

fn text(value: &str) -> Json {
    Json::Text(value.to_string())
}

fn member(name: &str, value: Json) -> (String, Json) {
    (name.to_string(), value)
}

#[test]
fn secrets_are_blanked_out_at_any_depth() {
    let document = Json::Object(vec![
        member("user", text("u")),
        member("Password", text("p")),
        member(
            "framework",
            Json::Object(vec![member(
                "rclone",
                Json::Object(vec![member("user", text("r")), member("password", text("s"))]),
            )]),
        ),
        member(
            "mounts",
            Json::Array(vec![
                Json::Object(vec![member("token", Json::Number("5".to_string()))]),
                Json::Array(vec![Json::Object(vec![member(
                    "secret",
                    Json::Object(vec![member("deep", Json::Null)]),
                )])]),
                text("password"),
                Json::Bool(true),
            ]),
        ),
    ]);
    let mark = || text("***REDACTED***");
    let expected = Json::Object(vec![
        member("user", text("u")),
        member("Password", mark()),
        member(
            "framework",
            Json::Object(vec![member(
                "rclone",
                Json::Object(vec![member("user", text("r")), member("password", mark())]),
            )]),
        ),
        member(
            "mounts",
            Json::Array(vec![
                Json::Object(vec![member("token", mark())]),
                Json::Array(vec![Json::Object(vec![member("secret", mark())])]),
                text("password"),
                Json::Bool(true),
            ]),
        ),
    ]);
    assert_eq!(redact_json(&document), expected);
    assert_eq!(redact_json(&expected), expected);
    assert_eq!(redaction_text(), "***REDACTED***");
}

#[test]
fn values_that_are_no_containers_are_left_alone() {
    for value in [Json::Null, Json::Bool(false), Json::Number("1.5e3".to_string()), text("token")] {
        let copy = redact_json(&value);
        assert_eq!(copy, value);
    }
    assert_eq!(redact_json(&Json::Array(Vec::new())), Json::Array(Vec::new()));
    assert_eq!(redact_json(&Json::Object(Vec::new())), Json::Object(Vec::new()));
}

#[test]
fn the_archive_holds_two_configurations_and_three_logs() {
    let tail = ExportKind::LogTail { max_bytes: 524_288 };
    assert_eq!(
        export_plan(),
        vec![
            ExportEntry {
                entry_name: "netmount/config.redacted.json",
                source: vec!["config.json"],
                kind: ExportKind::RedactedJson,
                label: "netmount config",
            },
            ExportEntry {
                entry_name: "openlist/config.redacted.json",
                source: vec!["openlist", "config.json"],
                kind: ExportKind::RedactedJson,
                label: "openlist config",
            },
            ExportEntry {
                entry_name: "logs/rclone.log.tail",
                source: vec!["log", "rclone.log"],
                kind: tail,
                label: "rclone log",
            },
            ExportEntry {
                entry_name: "logs/netmount.log.tail",
                source: vec!["log", "netmount.log"],
                kind: tail,
                label: "netmount log",
            },
            ExportEntry {
                entry_name: "logs/openlist.log.tail",
                source: vec!["openlist", "log", "log.log"],
                kind: tail,
                label: "openlist log",
            },
        ]
    );
    assert_eq!(META_ENTRY, "meta.json");
    assert_eq!(WARNINGS_ENTRY, "warnings.txt");
}

#[test]
fn warnings_stand_one_on_each_line() {
    assert_eq!(warning_line("rclone log", "denied"), "rclone log: denied");
    assert_eq!(join_warnings(&Vec::new()), None);
    assert_eq!(join_warnings(&vec!["a: b".to_string()]), Some("a: b".to_string()));
    assert_eq!(
        join_warnings(&vec!["a: b".to_string(), "".to_string(), "c: d".to_string()]),
        Some("a: b\n\nc: d".to_string())
    );
}

#[test]
fn a_tilde_stands_for_the_home_directory() {
    assert_eq!(resolve_tilde("~"), TildePath::Home);
    assert_eq!(resolve_tilde("~/"), TildePath::Home);
    assert_eq!(resolve_tilde("~~//\\"), TildePath::Home);
    assert_eq!(resolve_tilde("~/out.zip"), TildePath::UnderHome("out.zip".to_string()));
    assert_eq!(resolve_tilde("~\\a\\b"), TildePath::UnderHome("a\\b".to_string()));
    assert_eq!(resolve_tilde("~user/x"), TildePath::UnderHome("user/x".to_string()));
    assert_eq!(resolve_tilde("~/~/x"), TildePath::UnderHome("~/x".to_string()));
    assert_eq!(resolve_tilde("~/目录/"), TildePath::UnderHome("目录/".to_string()));
}

#[test]
fn a_path_without_a_tilde_at_its_start_is_taken_as_given() {
    assert_eq!(resolve_tilde(""), TildePath::AsGiven);
    assert_eq!(resolve_tilde("/tmp/out.zip"), TildePath::AsGiven);
    assert_eq!(resolve_tilde("out~.zip"), TildePath::AsGiven);
    assert_eq!(resolve_tilde(" ~/x"), TildePath::AsGiven);
}
