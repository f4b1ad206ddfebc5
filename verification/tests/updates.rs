use dataconnect::browser::{
    browser_session, check_browser_available, chromium_dir_name, chromium_download_url,
    chromium_executables, chromium_mirror, get_chromium_download_info, get_system_browser_path, is_chromium_dir,
    system_browser_candidates, Architecture, BrowserStatus, OperatingSystem, CHROMIUM_REVISION,
};
use dataconnect::clock::{chrono_timestamp, date_text, millis_from, now_ms, stamp_from};
use dataconnect::config::{
    decode_auth_session, encode_auth_session, encode_config, load_config, AppConfig,
};
use dataconnect::auth::{AuthUser, DurableAuthSession};
use dataconnect::download::{
    conversation_export, export_dir_name, get_filename_from_response, zip_name, ExportComplete,
};
use dataconnect::updates::{
    cache_is_fresh, calculate_checksum, connector_update, file_name, file_url, find_connector,
    is_newer_version, verify_checksum, ConnectorChecksums, ConnectorFiles, ConnectorUpdateInfo,
    Registry, RegistryConnector, DEFAULT_REGISTRY_URL,
};

fn connector(id: &str, version: &str) -> RegistryConnector {
    RegistryConnector {
        id: id.to_string(),
        company: "OpenAI".to_string(),
        version: version.to_string(),
        name: "ChatGPT".to_string(),
        description: "Conversations".to_string(),
        files: ConnectorFiles {
            script: "openai/chatgpt.js".to_string(),
            metadata: "openai/chatgpt.json".to_string(),
        },
        checksums: ConnectorChecksums { script: "sha256:0".to_string(), metadata: "sha256:1".to_string() },
    }
}

#[test]
fn checksum_is_the_sha256_of_the_data() {
    assert_eq!(
        calculate_checksum(b"abc"),
        "sha256:ba7816bf8f01cfea414140de5dae2223b00361a396177a9cb410ff61f20015ad"
    );
    assert_eq!(
        calculate_checksum(b""),
        "sha256:e3b0c44298fc1c149afbf4c8996fb92427ae41e4649b934ca495991b7852b855"
    );
    assert!(verify_checksum(
        b"abc",
        "sha256:ba7816bf8f01cfea414140de5dae2223b00361a396177a9cb410ff61f20015ad"
    ));
    assert!(!verify_checksum(
        b"abd",
        "sha256:ba7816bf8f01cfea414140de5dae2223b00361a396177a9cb410ff61f20015ad"
    ));
    assert!(!verify_checksum(
        b"abc",
        "ba7816bf8f01cfea414140de5dae2223b00361a396177a9cb410ff61f20015ad"
    ));
    assert!(!verify_checksum(
        b"abc",
        "sha256:BA7816BF8F01CFEA414140DE5DAE2223B00361A396177A9CB410FF61F20015AD"
    ));
    assert!(!verify_checksum(b"abc", ""));
}

#[test]
fn versions_are_compared_as_semantic_versions() {
    assert!(is_newer_version("1.0.0", "1.0.1"));
    assert!(is_newer_version("1.9.0", "1.10.0"));
    assert!(is_newer_version("1.0.0-alpha", "1.0.0"));
    assert!(is_newer_version("1.0.0-alpha", "1.0.0-alpha.1"));
    assert!(!is_newer_version("1.0.0", "1.0.0"));
    assert!(!is_newer_version("1.0.1", "1.0.0"));
    assert!(!is_newer_version("2.0.0", "10.0"));
    assert!(!is_newer_version("1.0", "2.0.0"));
    assert!(!is_newer_version("", "1.0.0"));
    assert!(!is_newer_version("1.0.0", "latest"));
    assert!(!is_newer_version("1.0.0", "1.0.01"));
}

#[test]
fn updates_are_offered_for_new_and_outdated_connectors() {
    let offered = connector("chatgpt", "1.2.0");
    assert_eq!(
        connector_update(&offered, true, Some("1.1.0".to_string())),
        Some(ConnectorUpdateInfo {
            id: "chatgpt".to_string(),
            name: "ChatGPT".to_string(),
            description: "Conversations".to_string(),
            company: "OpenAI".to_string(),
            current_version: Some("1.1.0".to_string()),
            latest_version: "1.2.0".to_string(),
            has_update: true,
            is_new: false,
        })
    );
    assert_eq!(connector_update(&offered, true, Some("1.2.0".to_string())), None);
    assert_eq!(connector_update(&offered, true, Some("2.0.0".to_string())), None);
    assert_eq!(connector_update(&offered, true, Some("unknown".to_string())), None);
    assert_eq!(connector_update(&offered, true, None), None);
    let new = connector_update(&offered, false, None).unwrap();
    assert!(new.is_new);
    assert!(!new.has_update);
    assert_eq!(new.current_version, None);
    let both = connector_update(&offered, false, Some("1.0.0".to_string())).unwrap();
    assert!(both.is_new);
    assert!(both.has_update);
}

#[test]
fn connectors_are_found_and_their_files_named() {
    let registry = Registry {
        version: "1".to_string(),
        last_updated: "2024-01-01".to_string(),
        base_url: "https://r.example/base".to_string(),
        connectors: vec![connector("a", "1.0.0"), connector("b", "1.0.0"), connector("a", "2.0.0")],
    };
    assert_eq!(find_connector(&registry, "a"), Some(0));
    assert_eq!(find_connector(&registry, "b"), Some(1));
    assert_eq!(find_connector(&registry, "c"), None);
    assert_eq!(
        file_url(&registry.base_url, &registry.connectors[0].files.script),
        "https://r.example/base/openai/chatgpt.js"
    );
    assert_eq!(file_name("openai/chatgpt.js"), "chatgpt.js");
    assert_eq!(file_name("chatgpt.js"), "chatgpt.js");
    assert_eq!(file_name("a/b/"), "");
    assert_eq!(file_name(""), "");
    assert!(cache_is_fresh(0));
    assert!(cache_is_fresh(3600));
    assert!(!cache_is_fresh(3601));
    assert!(DEFAULT_REGISTRY_URL.ends_with("/registry.json"));
}

#[test]
fn download_depends_on_the_platform() {
    assert_eq!(
        get_chromium_download_info(OperatingSystem::MacOs, Architecture::Aarch64),
        Some((
            "chromium-mac-arm64.zip",
            "chrome-mac-arm64/Google Chrome for Testing.app/Contents/MacOS/Google Chrome for Testing"
        ))
    );
    assert_eq!(
        get_chromium_download_info(OperatingSystem::MacOs, Architecture::X86_64),
        Some((
            "chromium-mac.zip",
            "chrome-mac-x64/Google Chrome for Testing.app/Contents/MacOS/Google Chrome for Testing"
        ))
    );
    assert_eq!(
        get_chromium_download_info(OperatingSystem::Windows, Architecture::X86_64),
        Some(("chromium-win64.zip", "chrome-win64/chrome.exe"))
    );
    assert_eq!(
        get_chromium_download_info(OperatingSystem::Windows, Architecture::Other),
        Some(("chromium-win64.zip", "chrome-win64/chrome.exe"))
    );
    assert_eq!(
        get_chromium_download_info(OperatingSystem::Linux, Architecture::X86_64),
        Some(("chromium-linux.zip", "chrome-linux64/chrome"))
    );
    assert_eq!(
        get_chromium_download_info(OperatingSystem::Linux, Architecture::Aarch64),
        Some(("chromium-linux-arm64.zip", "chrome-linux/chrome"))
    );
    assert_eq!(get_chromium_download_info(OperatingSystem::Linux, Architecture::Other), None);
    assert_eq!(get_chromium_download_info(OperatingSystem::MacOs, Architecture::Other), None);
    assert_eq!(get_chromium_download_info(OperatingSystem::Other, Architecture::X86_64), None);
    assert_eq!(CHROMIUM_REVISION, "1200");
    assert_eq!(chromium_mirror(0), Some("https://cdn.playwright.dev"));
    assert_eq!(
        chromium_mirror(1),
        Some("https://playwright.download.prss.microsoft.com/dbazure/download/playwright")
    );
    assert_eq!(chromium_mirror(2), None);
    assert_eq!(
        chromium_download_url("https://cdn.playwright.dev", "chromium-linux.zip"),
        "https://cdn.playwright.dev/builds/chromium/1200/chromium-linux.zip"
    );
    assert_eq!(chromium_dir_name(), "chromium-1200");
    assert_eq!(
        chromium_executables(OperatingSystem::Linux),
        vec!["chrome-linux/chrome", "chrome-linux64/chrome"]
    );
    assert_eq!(
        chromium_executables(OperatingSystem::Windows),
        vec!["chrome-win/chrome.exe", "chrome-win64/chrome.exe"]
    );
    assert_eq!(chromium_executables(OperatingSystem::MacOs).len(), 2);
    assert!(chromium_executables(OperatingSystem::Other).is_empty());
    assert!(is_chromium_dir("chromium-1200"));
    assert!(is_chromium_dir("chromium-"));
    assert!(!is_chromium_dir("chromium-headless-shell-1200"));
    assert!(!is_chromium_dir("chromium_headless_shell-1200"));
    assert!(!is_chromium_dir("firefox-1"));
    assert!(!is_chromium_dir("chromium"));
}

#[test]
fn system_browser_is_the_first_that_is_present() {
    assert_eq!(
        system_browser_candidates(OperatingSystem::Linux),
        vec![
            "/usr/bin/google-chrome",
            "/usr/bin/google-chrome-stable",
            "/usr/bin/chromium",
            "/usr/bin/chromium-browser"
        ]
    );
    assert_eq!(system_browser_candidates(OperatingSystem::MacOs).len(), 1);
    assert_eq!(system_browser_candidates(OperatingSystem::Windows).len(), 3);
    assert_eq!(system_browser_candidates(OperatingSystem::Other).len(), 0);
    assert_eq!(get_system_browser_path(OperatingSystem::Linux, &vec![false, false, true, true]), Some("/usr/bin/chromium"));
    assert_eq!(get_system_browser_path(OperatingSystem::Linux, &vec![true]), Some("/usr/bin/google-chrome"));
    assert_eq!(get_system_browser_path(OperatingSystem::Linux, &vec![false; 4]), None);
    assert_eq!(get_system_browser_path(OperatingSystem::Linux, &vec![]), None);
    assert_eq!(get_system_browser_path(OperatingSystem::MacOs, &vec![false, true]), None);
    assert_eq!(
        get_system_browser_path(OperatingSystem::Windows, &vec![false, false, true]),
        Some("C:\\Program Files (x86)\\Microsoft\\Edge\\Application\\msedge.exe")
    );
}

#[test]
fn browser_is_system_then_downloaded_then_none() {
    let status = |available, kind: &str, needs_download| BrowserStatus {
        available,
        browser_type: kind.to_string(),
        needs_download,
    };
    assert_eq!(check_browser_available(None, true, true), status(true, "system", false));
    assert_eq!(check_browser_available(Some(false), true, false), status(true, "system", false));
    assert_eq!(check_browser_available(Some(true), true, true), status(true, "downloaded", false));
    assert_eq!(check_browser_available(Some(true), true, false), status(false, "none", true));
    assert_eq!(check_browser_available(None, false, true), status(true, "downloaded", false));
    assert_eq!(check_browser_available(None, false, false), status(false, "none", true));
}

#[test]
fn dates_are_written_as_rfc3339() {
    assert_eq!(date_text(0), Some("1970-01-01T00:00:00+00:00".to_string()));
    assert_eq!(date_text(1_700_000_000), Some("2023-11-14T22:13:20+00:00".to_string()));
    assert_eq!(date_text(u64::MAX), None);
    assert_eq!(date_text(i64::MAX as u64), None);
    let session = browser_session("c".to_string(), "/p".to_string(), 9, Some(1_700_000_000));
    assert_eq!(session.last_modified, "2023-11-14T22:13:20+00:00");
    assert_eq!(session.size_bytes, 9);
    assert_eq!(browser_session("c".to_string(), "/p".to_string(), 9, None).last_modified, "");
    assert_eq!(
        browser_session("c".to_string(), "/p".to_string(), 9, Some(u64::MAX)).last_modified,
        "1970-01-01T00:00:00+00:00"
    );
}

#[test]
fn readings_of_the_clock_are_cut_to_size() {
    assert_eq!(millis_from(None), 0);
    assert_eq!(millis_from(Some(0)), 0);
    assert_eq!(millis_from(Some(1_700_000_000_123)), 1_700_000_000_123);
    assert_eq!(millis_from(Some(u64::MAX as u128)), u64::MAX);
    assert_eq!(millis_from(Some(u64::MAX as u128 + 1)), 0);
    assert_eq!(millis_from(Some(u128::MAX)), u64::MAX);
    assert_eq!(stamp_from(None), 0);
    assert_eq!(stamp_from(Some(1_700_000_000_123)), 1_700_000_000_123);
    assert_eq!(stamp_from(Some(i64::MAX as u128)), i64::MAX);
    assert_eq!(stamp_from(Some(i64::MAX as u128 + 1)), 0);
    assert_eq!(stamp_from(Some(u128::MAX)), i64::MAX);
}

#[test]
fn clock_runs_forward_from_the_epoch() {
    let first = now_ms();
    let stamp = chrono_timestamp();
    let second = now_ms();
    assert!(first > 1_600_000_000_000);
    assert!(first <= second);
    assert!(stamp >= first as i64);
    assert!(stamp <= second as i64);
}

#[test]
fn configuration_defaults_and_round_trips() {
    let default = AppConfig::default();
    assert_eq!(
        default,
        AppConfig {
            storage_provider: Some("local".to_string()),
            server_mode: Some("cloud".to_string()),
            self_hosted_url: None,
        }
    );
    assert_eq!(load_config(None), Some(default.clone()));
    assert_eq!(
        encode_config(&default),
        "{\"storageProvider\":\"local\",\"serverMode\":\"cloud\",\"selfHostedUrl\":null}"
    );
    assert_eq!(load_config(Some(&encode_config(&default))), Some(default));
    let custom = AppConfig {
        storage_provider: None,
        server_mode: Some("self\"hosted".to_string()),
        self_hosted_url: Some("https://me".to_string()),
    };
    assert_eq!(load_config(Some(&encode_config(&custom))), Some(custom));
    assert_eq!(
        load_config(Some("{}")),
        Some(AppConfig { storage_provider: None, server_mode: None, self_hosted_url: None })
    );
    assert_eq!(load_config(Some("{\"serverMode\":5}")), None);
    assert_eq!(load_config(Some("not json")), None);
    assert_eq!(load_config(Some("[]")), None);
}

#[test]
fn session_round_trips() {
    let session = DurableAuthSession {
        user: AuthUser { id: "user-1".to_string(), email: Some("user@vana.org".to_string()) },
        wallet_address: Some("0xabc".to_string()),
        master_key_signature: Some("sig-1".to_string()),
        saved_at_ms: 123,
    };
    let text = encode_auth_session(&session);
    assert_eq!(
        text,
        "{\"user\":{\"id\":\"user-1\",\"email\":\"user@vana.org\"},\"walletAddress\":\"0xabc\",\"masterKeySignature\":\"sig-1\",\"savedAtMs\":123}"
    );
    let loaded = decode_auth_session(&text);
    assert!(loaded.is_some());
    assert_eq!(loaded.clone().unwrap().user.id, "user-1");
    assert_eq!(loaded, Some(session));
    let bare = DurableAuthSession {
        user: AuthUser { id: "".to_string(), email: None },
        wallet_address: None,
        master_key_signature: None,
        saved_at_ms: u64::MAX,
    };
    assert_eq!(decode_auth_session(&encode_auth_session(&bare)), Some(bare));
    for text in [
        "",
        "{}",
        "{\"user\":{\"id\":\"u\"}}",
        "{\"user\":null,\"savedAtMs\":1}",
        "{\"user\":{\"email\":\"e\"},\"savedAtMs\":1}",
        "{\"user\":{\"id\":\"u\"},\"savedAtMs\":-1}",
        "{\"user\":{\"id\":\"u\"},\"savedAtMs\":1,\"walletAddress\":7}",
    ] {
        assert_eq!(decode_auth_session(text), None);
    }
}

#[test]
fn downloads_are_named_by_header_or_address() {
    assert_eq!(
        get_filename_from_response(Some("attachment; filename=\"export.zip\""), "https://x/y"),
        "export.zip"
    );
    assert_eq!(
        get_filename_from_response(Some("attachment; filename='a b.zip'"), "https://x/y"),
        "a b.zip"
    );
    assert_eq!(
        get_filename_from_response(Some("attachment; filename=plain.zip"), "https://x/y"),
        "plain.zip"
    );
    assert_eq!(
        get_filename_from_response(Some("attachment; filename=\"'q'\""), "https://x/y"),
        "q"
    );
    assert_eq!(
        get_filename_from_response(Some("attachment; filename=\"\""), "https://x/data.zip?sig=1"),
        "data.zip"
    );
    assert_eq!(
        get_filename_from_response(Some("attachment"), "https://x/data.zip?sig=1"),
        "data.zip"
    );
    assert_eq!(get_filename_from_response(None, "https://x/a/b.json"), "b.json");
    assert_eq!(get_filename_from_response(None, "https://x/a/"), "");
    assert_eq!(get_filename_from_response(None, "name"), "name");
    assert_eq!(get_filename_from_response(None, "https://x/a?b=/c"), "c");
}

#[test]
fn archives_and_conversation_exports_are_recognised() {
    assert!(zip_name("export.zip"));
    assert!(zip_name("EXPORT.ZIP"));
    assert!(zip_name(".zip"));
    assert!(!zip_name("zip"));
    assert!(!zip_name("export.zip.part"));
    assert!(!zip_name("export.zi"));
    assert!(conversation_export("https://proddatamgmtqueue.blob.core.windows.net/x.zip"));
    assert!(conversation_export("https://chatgpt.com/backend-api/content?id=1"));
    assert!(!conversation_export("https://chatgpt.com/backend-api/"));
    assert!(!conversation_export(""));
    assert_eq!(export_dir_name("chatgpt-001", 1_700_000_000_123), "chatgpt-001-1700000000123");
    let done = ExportComplete {
        company: "OpenAI".to_string(),
        name: "ChatGPT".to_string(),
        run_id: "run-1".to_string(),
        export_path: "/data/extracted".to_string(),
        export_size: 42,
    };
    assert_eq!(done.clone(), done);
    assert_eq!(done.export_size, 42);
}
