use kanuni::api::analysis::{determine_analysis_type, AnalysisType};
use kanuni::api::documents::{determine_category, DocumentCategory};
use kanuni::auth::sessions::{format_platform, format_relative_time, truncate_string};
use kanuni::auth::{CredentialManager, TokenAction};
use kanuni::auth::token_store::{AuthType, StoredCredentials};

fn texts(items: &[&str]) -> Vec<String> {
    items.iter().map(|s| s.to_string()).collect()
}

#[test]
fn extraction_topics_pick_the_analysis_type() {
    assert_eq!(determine_analysis_type(&texts(&[])), AnalysisType::Quick);
    assert_eq!(
        determine_analysis_type(&texts(&["risk factors"])),
        AnalysisType::Legal
    );
    assert_eq!(
        determine_analysis_type(&texts(&["money flows"])),
        AnalysisType::Financial
    );
    assert_eq!(
        determine_analysis_type(&texts(&["health records"])),
        AnalysisType::Medical
    );
    // Legal wins over the later topics.
    assert_eq!(
        determine_analysis_type(&texts(&["money", "legal duties"])),
        AnalysisType::Legal
    );
    assert_eq!(
        determine_analysis_type(&texts(&["dates"])),
        AnalysisType::Detailed
    );
}

#[test]
fn file_paths_suggest_a_category_case_insensitively() {
    assert_eq!(
        determine_category("contracts/lease-agreement.pdf"),
        Some(DocumentCategory::Contract)
    );
    // The match must survive upper-case paths: the case folding really
    // has to fold.
    assert_eq!(
        determine_category("MY-CONTRACT.PDF"),
        Some(DocumentCategory::Contract)
    );
    assert_eq!(
        determine_category("Lawsuit-2024.docx"),
        Some(DocumentCategory::Legal)
    );
    assert_eq!(
        determine_category("Invoice_march.pdf"),
        Some(DocumentCategory::Financial)
    );
    assert_eq!(
        determine_category("HEALTH-check.txt"),
        Some(DocumentCategory::Medical)
    );
    assert_eq!(determine_category("notes.txt"), None);
}

#[test]
fn platform_labels_recognise_the_well_known_systems() {
    assert_eq!(format_platform(Some("Darwin-x86_64")), "macOS");
    assert_eq!(format_platform(Some("LINUX")), "Linux");
    assert_eq!(format_platform(Some("windows 11")), "Windows");
    assert_eq!(format_platform(Some("cli")), "CLI");
    assert_eq!(format_platform(Some("plan9")), "plan9");
    assert_eq!(format_platform(None), "Unknown");
}

#[test]
fn truncation_keeps_short_fields_and_marks_long_ones() {
    assert_eq!(truncate_string("short", 20), "short");
    assert_eq!(truncate_string("a-very-long-device-name", 10), "a-very-...");
    assert_eq!(truncate_string("abc", 3), "abc");
    assert_eq!(truncate_string("abcd", 3), "...");
}

#[test]
fn relative_times_pick_the_coarsest_unit() {
    let now = 1_700_000_000;
    assert_eq!(format_relative_time(now, now), "Just now");
    assert_eq!(format_relative_time(now - 59, now), "Just now");
    assert_eq!(format_relative_time(now - 60, now), "1 mins ago");
    assert_eq!(format_relative_time(now - 3600, now), "1 hours ago");
    assert_eq!(format_relative_time(now - 86400 * 2, now), "2 days ago");
    assert_eq!(format_relative_time(now - 86400 * 31, now), "1 months ago");
    assert_eq!(format_relative_time(now - 86400 * 95, now), "3 months ago");
    // A moment in the future is not in the past.
    assert_eq!(format_relative_time(now + 1000, now), "Just now");
}

#[test]
fn the_clock_backing_token_requests_reads_the_real_time() {
    let creds = StoredCredentials {
        auth_type: AuthType::ApiKey {
            key: "kanuni_live_secret0042".to_string(),
            name: "CLI Key".to_string(),
            prefix: "kanuni_live_".to_string(),
            last_4: "0042".to_string(),
        },
        user_id: None,
        email: None,
        created_at: 0,
        updated_at: 0,
    };
    let mut m = CredentialManager::new(Some(creds));
    let (now, action) = m.get_access_token_now();
    assert!(matches!(action, TokenAction::UseToken(_)));
    // Between 2020 and the year 3000, whatever clock runs the tests.
    assert!(now > 1_577_836_800 && now < 32_503_680_000);
}
