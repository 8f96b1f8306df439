use vibe_extract_core::lsappinfo::{front_asn, lsappinfo_reports_live_pid, name_from_lsappinfo, pid_from_lsappinfo};
use vibe_extract_core::paths::{asar_candidate, bundle_root_for_executable, find_asar_for_executable, HostOs};
use vibe_extract_core::text::html_escape;

#[test]
fn pids_are_read_from_key_value_lines() {
    assert_eq!(pid_from_lsappinfo("\"pid\"=12345\n"), Some(12345));
    assert_eq!(pid_from_lsappinfo("garbage\n\"pid\" = -7 \n\"pid\"=9"), Some(-7));
    assert_eq!(pid_from_lsappinfo("\"pid\"=abc\n"), None);
    assert_eq!(pid_from_lsappinfo(""), None);
    assert_eq!(pid_from_lsappinfo("\"pid\"=99999999999"), None);
    assert_eq!(pid_from_lsappinfo("\"pid\"=+5"), Some(5));
}

#[test]
fn live_process_needs_a_positive_pid() {
    assert!(lsappinfo_reports_live_pid("\"pid\"=431\n"));
    assert!(!lsappinfo_reports_live_pid("\n   \n"));
    assert!(!lsappinfo_reports_live_pid("\"pid\"=0"));
    assert!(lsappinfo_reports_live_pid("x=y\n\"pid\"=2"));
}

#[test]
fn names_lose_their_quotes() {
    assert_eq!(name_from_lsappinfo("\"name\"=\"Slack\"\n"), Some("Slack".to_string()));
    assert_eq!(name_from_lsappinfo("\"name\"=\"\"\n\"name\"=Other"), Some("Other".to_string()));
    assert_eq!(name_from_lsappinfo("no equals here"), None);
}

#[test]
fn front_application_identifier() {
    assert_eq!(front_asn("  ASN:0x0-0x1d01d:\n"), Some("ASN:0x0-0x1d01d:".to_string()));
    assert_eq!(front_asn(" \n"), None);
}

#[test]
fn asar_next_to_executables() {
    assert_eq!(
        bundle_root_for_executable("/Applications/Slack.app/Contents/MacOS/Slack"),
        Some("/Applications/Slack.app".to_string())
    );
    assert_eq!(
        asar_candidate("/Applications/Slack.app/Contents/MacOS/Slack", HostOs::MacOs),
        Some("/Applications/Slack.app/Contents/Resources/app.asar".to_string())
    );
    assert_eq!(
        asar_candidate("/opt/Slack/slack.exe", HostOs::Windows),
        Some("/opt/Slack/resources/app.asar".to_string())
    );
    assert_eq!(asar_candidate("/opt/Slack/slack", HostOs::Other), None);
    assert_eq!(
        find_asar_for_executable("/Applications/Slack.app/Contents/MacOS/Slack", HostOs::MacOs, |_| true),
        Some("/Applications/Slack.app/Contents/Resources/app.asar".to_string())
    );
    assert_eq!(find_asar_for_executable("/Applications/Slack.app/Contents/MacOS/Slack", HostOs::MacOs, |_| false), None);
}

#[test]
fn html_escape_covers_markup_characters() {
    assert_eq!(html_escape("<a href=\"x\">&'</a>"), "&lt;a href=&quot;x&quot;&gt;&amp;'&lt;/a&gt;");
    assert_eq!(html_escape(""), "");
    assert_eq!(html_escape("plain — text"), "plain — text");
}
