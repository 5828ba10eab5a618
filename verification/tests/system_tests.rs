use nexuscore_mcp::decimal::format_decimal;
use nexuscore_mcp::sandbox::cape::{CapeClient, CapeFailure, PollVerdict, POLL_INTERVAL_SECS};
use nexuscore_mcp::tools::failure::ToolFailure;
use nexuscore_mcp::tools::system::handles::{HandleEntry, HandleScanner, ProgramOutcome};
use nexuscore_mcp::tools::system::persistence::{
    Hive, PersistenceHunter, PersistenceItem, RunKeyValues, StartupEntry,
};

fn entry(kind: &str, name: &str) -> HandleEntry {
    HandleEntry { kind: kind.as_bytes().to_vec(), name: name.as_bytes().to_vec() }
}

/// What the scanner is meant to compute, written with the string functions
/// of the standard library.
fn reference_parse(listing: &str) -> Vec<HandleEntry> {
    let mut handles = Vec::new();
    for line in listing.lines() {
        let parts: Vec<&str> = line.split_whitespace().collect();
        if parts.len() >= 4 {
            let obj_type = parts[0];
            if obj_type == "Type" || obj_type.starts_with("---") {
                continue;
            }
            if parts.len() > 4 {
                let name = parts[4..].join(" ");
                if !name.is_empty() {
                    handles.push(entry(obj_type, &name));
                }
            }
        }
    }
    handles
}

#[test]
fn decimal_numbers_are_written_without_padding() {
    assert_eq!(format_decimal(0), "0");
    assert_eq!(format_decimal(5), "5");
    assert_eq!(format_decimal(10), "10");
    assert_eq!(format_decimal(1234567890), "1234567890");
    assert_eq!(format_decimal(u64::MAX), "18446744073709551615");
}

#[test]
fn handle_listing_is_split_into_type_and_name() {
    let listing = "Type           Pid User   Handle   Path\n\
                   File           123 User   4C       C:\\Windows\n\
                   Mutex          123 User   50       \\BaseNamedObjects\\MyMutex\n";
    assert_eq!(
        HandleScanner.parse(listing.as_bytes()),
        vec![entry("File", "C:\\Windows"), entry("Mutex", "\\BaseNamedObjects\\MyMutex")]
    );
}

#[test]
fn names_with_spaces_are_joined_by_single_spaces() {
    let listing = "File  1  u  4C   C:\\Program   Files\\An\tApp  \r\n";
    assert_eq!(HandleScanner.parse(listing.as_bytes()), vec![entry("File", "C:\\Program Files\\An App")]);
}

#[test]
fn short_lines_and_headers_describe_no_handle() {
    let scanner = HandleScanner;
    assert!(scanner.parse(b"").is_empty());
    assert!(scanner.parse(b"\n\n\n").is_empty());
    assert!(scanner.parse(b"File 1 u 4C").is_empty());
    assert!(scanner.parse(b"a b c").is_empty());
    assert!(scanner.parse(b"Type Pid User Handle Path").is_empty());
    assert!(scanner.parse(b"Type Pid User Handle Path and more").is_empty());
    assert!(scanner.parse(b"--- x y z w").is_empty());
    assert!(scanner.parse(b"------ x y z w").is_empty());
    assert_eq!(scanner.parse(b"-- x y z w"), vec![entry("--", "w")]);
    assert_eq!(scanner.parse(b"Types x y z w"), vec![entry("Types", "w")]);
    assert_eq!(scanner.parse(b"type x y z w"), vec![entry("type", "w")]);
    assert_eq!(scanner.parse(b"Typ x y z w"), vec![entry("Typ", "w")]);
}

#[test]
fn last_line_needs_no_line_feed() {
    assert_eq!(HandleScanner.parse(b"A 1 2 3 n1\nB 1 2 3 n2"), vec![entry("A", "n1"), entry("B", "n2")]);
    assert_eq!(HandleScanner.parse(b"A 1 2 3 n1\nB 1 2 3 n2\n"), vec![entry("A", "n1"), entry("B", "n2")]);
}

#[test]
fn unicode_white_space_separates_words() {
    let spaces = [
        "\u{0009}", "\u{000B}", "\u{000C}", "\u{000D}", "\u{0020}", "\u{0085}", "\u{00A0}",
        "\u{1680}", "\u{2000}", "\u{2005}", "\u{200A}", "\u{2028}", "\u{2029}", "\u{202F}",
        "\u{205F}", "\u{3000}",
    ];
    for space in spaces {
        let listing = format!("File{s}1{s}u{s}4C{s}na{s}{s}me{s}", s = space);
        assert_eq!(
            HandleScanner.parse(listing.as_bytes()),
            vec![entry("File", "na me")],
            "space U+{:04X}",
            space.chars().next().unwrap() as u32
        );
        assert_eq!(HandleScanner.parse(listing.as_bytes()), reference_parse(&listing));
    }
}

#[test]
fn other_characters_separate_nothing() {
    for odd in ["\u{200B}", "\u{00A1}", "\u{2060}", "\u{FEFF}", "\u{180E}", "\u{0084}", "\u{200C}", "\u{3001}", "\u{2027}", "\u{00C2}", "\u{E280}"] {
        let listing = format!("File 1 u 4C na{s}me x{s}", s = odd);
        assert_eq!(HandleScanner.parse(listing.as_bytes()), reference_parse(&listing));
        assert_eq!(HandleScanner.parse(listing.as_bytes()).len(), 1);
        let listing = format!("File{s}1 u 4C name", s = odd);
        assert!(HandleScanner.parse(listing.as_bytes()).is_empty());
    }
}

#[test]
fn parser_agrees_with_the_string_functions() {
    let samples = [
        "",
        " ",
        "\n",
        "a",
        "a b c d e",
        "a b c d e f g\n\nh i j k l\n",
        "Type 1 2 3 4\n--- 1 2 3 4\nFile 1 2 3 4\r\nKey   9   8   7   HKLM\\Software  \\x\r\n",
        "  leading 1 2 3 name\n\ttabbed\t1\t2\t3\tname\t\n",
        "Caf\u{00e9} 1 2 3 \u{4e2d}\u{6587} \u{1F600}\n",
        "x\u{00A0}1\u{2003}2\u{3000}3 n\u{0085}m\n",
        "Section 1 u 4C \\BaseNamedObjects\\windows_shell_global_counters\nEvent 1 u 50\n",
    ];
    for sample in samples {
        assert_eq!(HandleScanner.parse(sample.as_bytes()), reference_parse(sample), "{:?}", sample);
    }
}

#[test]
fn truncated_encodings_are_no_white_space() {
    // the first bytes of a three-byte space, cut off by the end of the line
    assert_eq!(
        HandleScanner.parse(b"A 1 2 3 n\xE2\x80\nB 1 2 3 m\xC2"),
        vec![
            HandleEntry { kind: b"A".to_vec(), name: b"n\xE2\x80".to_vec() },
            HandleEntry { kind: b"B".to_vec(), name: b"m\xC2".to_vec() },
        ]
    );
}

#[test]
fn handle_scanner_builds_its_command_line() {
    let scanner = HandleScanner;
    assert_eq!(scanner.name(), "scan_handles");
    assert!(scanner.description().contains("handle.exe"));
    assert!(scanner.schema().params.is_empty());
    assert_eq!(scanner.program(), "handle.exe");
    assert_eq!(scanner.arguments(1234), vec!["-a", "-p", "1234", "-accepteula", "-nobanner"]);
    assert_eq!(scanner.arguments(0)[2], "0");
    assert_eq!(scanner.arguments(u64::MAX)[2], "18446744073709551615");
}

#[test]
fn handle_scanner_reports_or_fails() {
    let scanner = HandleScanner;
    let f = scanner.run(None, ProgramOutcome::Listed(b"A 1 2 3 n")).unwrap_err();
    assert!(matches!(f, ToolFailure::MissingArgument("Missing pid")));
    let f = scanner.run(Some(5), ProgramOutcome::NotStarted("no such file")).unwrap_err();
    assert_eq!(f.message(), "Failed to run handle.exe. Is it in PATH? Error: no such file");
    assert!(matches!(f, ToolFailure::Program(_)));
    let f = scanner.run(Some(5), ProgramOutcome::Failed("access denied")).unwrap_err();
    assert_eq!(f.message(), "handle.exe failed: access denied");
    let report = scanner.run(Some(5), ProgramOutcome::Listed(b"A 1 2 3 n\nB 1 2 3\nC 1 2 3 m o")).unwrap();
    assert_eq!(report.pid, 5);
    assert_eq!(report.handle_count, 2);
    assert_eq!(report.handles, vec![entry("A", "n"), entry("C", "m o")]);
}

#[test]
fn persistence_hunter_knows_where_to_look() {
    let hunter = PersistenceHunter;
    assert_eq!(hunter.name(), "scan_persistence");
    assert!(hunter.description().starts_with("Scans registry Run keys"));
    assert!(hunter.schema().params.is_empty());
    let keys = hunter.run_keys();
    let listed: Vec<(&str, &str)> = keys.iter().map(|k| (k.hive.label(), k.path)).collect();
    assert_eq!(
        listed,
        vec![
            ("HKCU", r"Software\Microsoft\Windows\CurrentVersion\Run"),
            ("HKCU", r"Software\Microsoft\Windows\CurrentVersion\RunOnce"),
            ("HKLM", r"Software\Microsoft\Windows\CurrentVersion\Run"),
            ("HKLM", r"Software\Microsoft\Windows\CurrentVersion\RunOnce"),
            ("HKLM", r"Software\WOW6432Node\Microsoft\Windows\CurrentVersion\Run"),
        ]
    );
    assert_eq!(hunter.startup_variables(), vec!["APPDATA", "PROGRAMDATA"]);
    assert_eq!(hunter.startup_suffix(), r"Microsoft\Windows\Start Menu\Programs\Startup");
    assert_eq!(hunter.unreadable_name(), "Error");
    assert_eq!(Hive::CurrentUser.label(), "HKCU");
    assert_eq!(Hive::LocalMachine.label(), "HKLM");
}

#[test]
fn persistence_hunter_skips_nameless_values_and_non_files() {
    let hunter = PersistenceHunter;
    let keys = hunter.run_keys();
    assert!(hunter.registry_item(&keys[0], String::new(), "x.exe".to_string()).is_none());
    match hunter.registry_item(&keys[2], "Updater".to_string(), "C:\\u.exe".to_string()) {
        Some(item) => {
            assert_eq!(item.kind(), "registry");
            match item {
                PersistenceItem::Registry { hive, path, name, value } => {
                    assert_eq!(hive, Hive::LocalMachine);
                    assert_eq!(path, r"Software\Microsoft\Windows\CurrentVersion\Run");
                    assert_eq!(name, "Updater");
                    assert_eq!(value, "C:\\u.exe");
                }
                other => panic!("unexpected item {:?}", other),
            }
        }
        None => panic!("a named value is reported"),
    }
    assert!(hunter.file_item(false, "C:\\s\\dir".to_string(), "dir".to_string()).is_none());
    match hunter.file_item(true, "C:\\s\\a.lnk".to_string(), "a.lnk".to_string()) {
        Some(item) => {
            assert_eq!(item.kind(), "file");
            assert!(matches!(item, PersistenceItem::File { ref path, ref name } if path == "C:\\s\\a.lnk" && name == "a.lnk"));
        }
        None => panic!("a file is reported"),
    }
    let report = hunter.report(vec![
        hunter.file_item(true, "p".to_string(), "n".to_string()).unwrap(),
        hunter.registry_item(&keys[1], "n".to_string(), "v".to_string()).unwrap(),
    ]);
    assert_eq!(report.count, 2);
    assert_eq!(report.items.len(), 2);
    assert_eq!(hunter.report(Vec::new()).count, 0);
}

#[test]
fn scan_report_lists_registry_values_before_files() {
    let hunter = PersistenceHunter;
    let keys = hunter.run_keys();
    let pair = |n: &str, v: &str| (n.to_string(), v.to_string());
    let entry = |is_file: bool, name: &str| StartupEntry {
        is_file,
        path: format!("C:\\s\\{}", name),
        name: name.to_string(),
    };
    let report = hunter.scan_report(
        vec![
            RunKeyValues { key: keys[0], values: vec![pair("A", "a.exe"), pair("", "x"), pair("B", "")] },
            RunKeyValues { key: keys[2], values: vec![] },
            RunKeyValues { key: keys[4], values: vec![pair("Error", "[]"), pair("", "")] },
        ],
        vec![entry(false, "dir"), entry(true, "run.lnk"), entry(true, "x.bat"), entry(false, "d2")],
    );
    assert_eq!(report.count, 5);
    let listed: Vec<String> = report
        .items
        .iter()
        .map(|item| match item {
            PersistenceItem::Registry { hive, path, name, value } => {
                format!("{} {} {}={}", hive.label(), path, name, value)
            }
            PersistenceItem::File { path, name } => format!("file {} {}", path, name),
        })
        .collect();
    assert_eq!(
        listed,
        vec![
            r"HKCU Software\Microsoft\Windows\CurrentVersion\Run A=a.exe".to_string(),
            r"HKCU Software\Microsoft\Windows\CurrentVersion\Run B=".to_string(),
            r"HKLM Software\WOW6432Node\Microsoft\Windows\CurrentVersion\Run Error=[]".to_string(),
            "file C:\\s\\run.lnk run.lnk".to_string(),
            "file C:\\s\\x.bat x.bat".to_string(),
        ]
    );
    let empty = hunter.scan_report(Vec::new(), Vec::new());
    assert_eq!(empty.count, 0);
    assert!(empty.items.is_empty());
}

#[test]
fn cape_client_drops_trailing_slashes() {
    assert_eq!(CapeClient::new("http://cape:8000/apiv2/", "t").base_url(), "http://cape:8000/apiv2");
    assert_eq!(CapeClient::new("http://cape:8000/apiv2", "t").base_url(), "http://cape:8000/apiv2");
    assert_eq!(CapeClient::new("http://cape///", "t").base_url(), "http://cape");
    assert_eq!(CapeClient::new("/", "t").base_url(), "");
    assert_eq!(CapeClient::new("", "t").base_url(), "");
    assert_eq!(CapeClient::new("a/b", "t").base_url(), "a/b");
    assert_eq!(CapeClient::new("h\u{00e9}/", "t").base_url(), "h\u{00e9}");
    assert_eq!(CapeClient::new("x", "secret").api_token(), "secret");
}

#[test]
fn cape_client_builds_its_addresses() {
    let client = CapeClient::new("http://cape:8000/apiv2/", "");
    assert_eq!(client.submit_url(), "http://cape:8000/apiv2/tasks/create/file/");
    assert_eq!(client.view_url(42), "http://cape:8000/apiv2/tasks/view/42/");
    assert_eq!(client.report_url(42), "http://cape:8000/apiv2/tasks/report/42/");
    assert_eq!(client.view_url(0), "http://cape:8000/apiv2/tasks/view/0/");
    assert_eq!(
        client.report_url(u64::MAX),
        "http://cape:8000/apiv2/tasks/report/18446744073709551615/"
    );
}

#[test]
fn cape_submission_is_judged() {
    assert_eq!(CapeClient::judge_submission(true, String::new(), Some(17)).unwrap(), 17);
    let f = CapeClient::judge_submission(true, String::new(), None).unwrap_err();
    assert!(matches!(f, CapeFailure::NoTaskId));
    assert_eq!(f.message(), "No task_id in response");
    let f = CapeClient::judge_submission(false, "bad file".to_string(), Some(17)).unwrap_err();
    assert!(matches!(f, CapeFailure::SubmissionFailed(_)));
    assert_eq!(f.message(), "CAPE submission failed: bad file");
}

#[test]
fn cape_poll_is_judged() {
    let retry = PollVerdict::RetryAfter(5);
    assert_eq!(POLL_INTERVAL_SECS, 5);
    assert_eq!(CapeClient::judge_poll(true, Some("reported")), PollVerdict::Reported);
    assert_eq!(CapeClient::judge_poll(true, Some("failed_analysis")), PollVerdict::Failed);
    for status in ["pending", "running", "completed", "processing", "unknown", "", "Reported", "reported "] {
        assert_eq!(CapeClient::judge_poll(true, Some(status)), retry);
    }
    assert_eq!(CapeClient::judge_poll(true, None), retry);
    assert_eq!(CapeClient::judge_poll(false, Some("reported")), retry);
    assert_eq!(CapeClient::judge_poll(false, Some("failed_analysis")), retry);
    assert_eq!(CapeClient::judge_poll(false, None), retry);
}

#[test]
fn cape_wait_gives_up_after_the_deadline() {
    assert!(!CapeClient::deadline_passed(0, 0));
    assert!(!CapeClient::deadline_passed(60, 60));
    assert!(CapeClient::deadline_passed(61, 60));
    assert!(CapeClient::deadline_passed(1, 0));
    let f = CapeClient::wait_step(61, 60, true, Some("reported")).unwrap_err();
    assert!(matches!(f, CapeFailure::Timeout));
    assert_eq!(f.message(), "Analysis timeout detected!");
    assert_eq!(CapeClient::wait_step(60, 60, true, Some("reported")).unwrap(), PollVerdict::Reported);
    assert_eq!(
        CapeClient::wait_step(0, 60, true, Some("failed_analysis")).unwrap(),
        PollVerdict::Failed
    );
    assert_eq!(CapeFailure::AnalysisFailed.message(), "Analysis failed inside CAPE");
    assert_eq!(CapeClient::wait_step(5, 60, false, None).unwrap(), PollVerdict::RetryAfter(5));
}
