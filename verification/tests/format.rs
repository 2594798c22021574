use kanuni::api::analysis::{
    poll_step, AnalysisStatus, AnalysisStatusResponse, PollOutcome,
};
use kanuni::api::documents::{mime_type_for_extension, resolve_partial_id, IdResolution};
use kanuni::config::{Config, WebSocketConfig};
use kanuni::progress::{AnalysisStage, FileStatus};
use kanuni::text::{fmt_u64, str_contains, str_has_prefix, str_has_suffix, str_replace};
use kanuni::utils::progress::{
    format_bytes, format_file_status, format_stage, LiveStatusDisplay,
};

#[test]
fn stages_display_their_names() {
    assert_eq!(AnalysisStage::Queued.display_name(), "Queued");
    assert_eq!(AnalysisStage::ExtractingText.display_name(), "Extracting Text");
    assert_eq!(AnalysisStage::GeneratingEmbeddings.display_name(), "Generating Embeddings");
    assert_eq!(AnalysisStage::Completed.display_name(), "Completed");
    assert!(AnalysisStage::Completed.is_terminal());
    assert!(!AnalysisStage::Finalizing.is_terminal());
}

#[test]
fn stage_labels_carry_their_icons() {
    assert_eq!(format_stage(&AnalysisStage::Queued), "⏳ Queued");
    assert_eq!(format_stage(&AnalysisStage::Completed), "✅ Completed");
    assert_eq!(format_file_status(&FileStatus::Uploading), "📤 Uploading");
    assert_eq!(format_file_status(&FileStatus::Failed), "❌ Failed");
}

#[test]
fn byte_counts_render_in_binary_units() {
    assert_eq!(format_bytes(0), "0 B");
    assert_eq!(format_bytes(512), "512 B");
    assert_eq!(format_bytes(1023), "1023 B");
    assert_eq!(format_bytes(1024), "1.00 KB");
    assert_eq!(format_bytes(1536), "1.50 KB");
    assert_eq!(format_bytes(10 * 1024), "10.00 KB");
    assert_eq!(format_bytes(1048576), "1.00 MB");
    assert_eq!(format_bytes(5 * 1048576 + 1048576 / 4), "5.25 MB");
    assert_eq!(format_bytes(1073741824), "1.00 GB");
    assert_eq!(format_bytes(1099511627776), "1.00 TB");
}

#[test]
fn decimal_rendering_is_exact() {
    assert_eq!(fmt_u64(0), "0");
    assert_eq!(fmt_u64(7), "7");
    assert_eq!(fmt_u64(10), "10");
    assert_eq!(fmt_u64(90210), "90210");
    assert_eq!(fmt_u64(u64::MAX), "18446744073709551615");
}

#[test]
fn text_utilities_behave_like_their_std_counterparts() {
    assert!(str_has_prefix("http://x", "http://"));
    assert!(!str_has_prefix("ftp://x", "http://"));
    assert!(str_has_suffix("host/api/v1", "/api/v1"));
    assert!(!str_has_suffix("host/api/v2", "/api/v1"));
    assert!(str_contains("a/api/v1/b", "/api/v1"));
    assert!(!str_contains("a/api/v2/b", "/api/v1"));
    assert_eq!(str_replace("http://h", "http://", "ws://"), "ws://h");
    assert_eq!(str_replace("aaa", "a", "bb"), "bbbbbb");
    assert_eq!(str_replace("xyz", "q", "r"), "xyz");
}

fn config_with_endpoint(endpoint: &str) -> Config {
    Config {
        api_endpoint: endpoint.to_string(),
        ..Config::default()
    }
}

#[test]
fn websocket_url_prefers_the_override() {
    let mut c = config_with_endpoint("https://api.example/api/v1");
    c.websocket = WebSocketConfig {
        url: Some("wss://elsewhere/ws".to_string()),
        ..WebSocketConfig::default()
    };
    assert_eq!(c.get_websocket_url(), "wss://elsewhere/ws");
}

#[test]
fn websocket_url_derives_from_the_api_endpoint() {
    assert_eq!(
        config_with_endpoint("https://api.example/api/v1").get_websocket_url(),
        "wss://api.example/api/v1/ws"
    );
    assert_eq!(
        config_with_endpoint("http://localhost:8080/api/v1").get_websocket_url(),
        "ws://localhost:8080/api/v1/ws"
    );
    assert_eq!(
        config_with_endpoint("https://api.example/api/v1/extra").get_websocket_url(),
        "wss://api.example/api/v1/ws/extra"
    );
    assert_eq!(
        config_with_endpoint("https://api.example/").get_websocket_url(),
        "wss://api.example/api/v1/ws"
    );
}

#[test]
fn mime_types_follow_the_extension() {
    assert_eq!(
        mime_type_for_extension(Some("pdf")),
        Some("application/pdf".to_string())
    );
    assert_eq!(
        mime_type_for_extension(Some("txt")),
        Some("text/plain".to_string())
    );
    assert_eq!(mime_type_for_extension(Some("png")), None);
    assert_eq!(mime_type_for_extension(None), None);
}

fn status(status: AnalysisStatus, message: Option<&str>) -> AnalysisStatusResponse {
    AnalysisStatusResponse {
        id: 1,
        document_id: 2,
        status,
        progress: Some(50),
        created_at: 0,
        started_at: None,
        completed_at: None,
        error_message: message.map(|m| m.to_string()),
    }
}

#[test]
fn polling_distinguishes_timeout_from_failure() {
    // Past the deadline the outcome is unknown: a timeout, even if the
    // server also reports something.
    assert_eq!(
        poll_step(&status(AnalysisStatus::Failed, Some("x")), 301, 300),
        PollOutcome::TimedOut
    );
    assert_eq!(
        poll_step(&status(AnalysisStatus::Completed, None), 300, 300),
        PollOutcome::FetchResult
    );
    assert_eq!(
        poll_step(&status(AnalysisStatus::Failed, Some("parse error")), 10, 300),
        PollOutcome::Failed(Some("parse error".to_string()))
    );
    assert_eq!(
        poll_step(&status(AnalysisStatus::Cancelled, None), 10, 300),
        PollOutcome::Cancelled
    );
    assert_eq!(
        poll_step(&status(AnalysisStatus::Processing, None), 10, 300),
        PollOutcome::ContinueWaiting
    );
    assert_eq!(
        poll_step(&status(AnalysisStatus::Pending, None), 10, 300),
        PollOutcome::ContinueWaiting
    );
}

#[test]
fn the_live_display_keeps_only_the_newest_lines() {
    let mut d = LiveStatusDisplay::new(2);
    d.add_status("A", "one".to_string());
    d.add_status("B", "two".to_string());
    assert_eq!(d.rendered_lines(), vec!["A one", "B two"]);
    d.add_status("C", "three".to_string());
    assert_eq!(d.rendered_lines(), vec!["B two", "C three"]);
    d.update_last("D", "four".to_string());
    assert_eq!(d.rendered_lines(), vec!["B two", "D four"]);
    d.clear();
    assert_eq!(d.rendered_lines(), Vec::<String>::new());
    d.update_last("E", "five".to_string());
    assert_eq!(d.rendered_lines(), vec!["E five"]);
}

fn doc(id: u128, filename: &str) -> kanuni::api::documents::DocumentResponse {
    kanuni::api::documents::DocumentResponse {
        id,
        filename: filename.to_string(),
        category: None,
        size_bytes: None,
        mime_type: None,
        created_at: 0,
        updated_at: 0,
        download_url: None,
        analysis_status: None,
        analysis_id: None,
        analyzed_at: None,
    }
}

#[test]
fn shortened_ids_resolve_against_the_listing() {
    let a: u128 = 0x123e4567e89b12d3a456426614174000;
    let b: u128 = 0x123e4567000000000000000000000001;
    let c: u128 = 0xabcdef01000000000000000000000002;
    let docs = vec![doc(a, "one.pdf"), doc(b, "two.pdf"), doc(c, "three.pdf")];
    assert_eq!(
        resolve_partial_id(&docs, "123e4567-e89b"),
        IdResolution::Resolved(a)
    );
    assert_eq!(
        resolve_partial_id(&docs, "abcdef01"),
        IdResolution::Resolved(c)
    );
    assert_eq!(
        resolve_partial_id(&docs, "123e4567"),
        IdResolution::Ambiguous(vec![a, b])
    );
    assert_eq!(
        resolve_partial_id(&docs, "ffffffff"),
        IdResolution::NoMatch
    );
    assert_eq!(resolve_partial_id(&docs, "123e"), IdResolution::TooShort);
}
