use gytmdl_gui::cookie_manager::{CookieError, CookieManager};

fn manager() -> CookieManager {
    CookieManager::with_cookies_dir(".gytmdl-gui/cookies".to_string())
}

#[test]
fn a_manager_keeps_its_directory() {
    let manager = manager();
    assert_eq!(manager.cookies_dir(), ".gytmdl-gui/cookies");
}

#[test]
fn test_validate_cookie_content_valid() {
    let manager = manager();
    let valid_content = "# Netscape HTTP Cookie File\n.youtube.com\tTRUE\t/\tTRUE\t1234567890\tSAPISID\ttest_value\n.youtube.com\tTRUE\t/\tTRUE\t1234567890\tHSID\ttest_value2";

    let result = manager.validate_cookie_content(valid_content);
    assert!(result.is_ok());
}

#[test]
fn test_validate_cookie_content_invalid_empty() {
    let manager = manager();
    let result = manager.validate_cookie_content("");
    assert!(result.is_err());
    assert!(result.unwrap_err().to_string().contains("empty"));
}

#[test]
fn test_validate_cookie_content_invalid_format() {
    let manager = manager();
    let invalid_content = "invalid\tformat";

    let result = manager.validate_cookie_content(invalid_content);
    assert!(result.is_err());
}

#[test]
fn test_validate_cookie_content_no_youtube() {
    let manager = manager();
    let content = ".example.com\tTRUE\t/\tTRUE\t1234567890\ttest\tvalue";

    let result = manager.validate_cookie_content(content);
    assert!(result.is_err());
    assert!(result.unwrap_err().to_string().contains("No YouTube cookies"));
}

#[test]
fn test_analyze_cookies_with_po_token() {
    let manager = manager();
    let content = ".youtube.com\tTRUE\t/\tTRUE\t9999999999\t__Secure-YT-Core-PO-Token\tpo_value\n.youtube.com\tTRUE\t/\tTRUE\t9999999999\tSAPISID\ttest_value";

    let result = manager.analyze_cookies(content);
    assert!(result.is_ok());

    let info = result.unwrap();
    assert!(info.is_valid);
    assert!(info.po_token_present);
}

#[test]
fn test_analyze_cookies_expiration_warning() {
    let manager = manager();
    // Use a timestamp that's already expired (timestamp 1)
    let content = ".youtube.com\tTRUE\t/\tTRUE\t1\tSAPISID\ttest_value";

    let result = manager.analyze_cookies(content);
    assert!(result.is_ok());

    let info = result.unwrap();
    assert!(info.is_valid);
    assert!(info.expiration_warning.is_some());
    assert!(info.expiration_warning.unwrap().contains("expired"));
}

#[test]
fn test_validate_cookies_no_file() {
    let cookie_info = CookieManager::missing_file_info();
    assert!(!cookie_info.is_valid);
    assert!(cookie_info.expiration_warning.is_some());
    assert!(!cookie_info.po_token_present);
    assert!(cookie_info.file_path.is_none());
}

// ---- exact values ----

fn fault(content: &str) -> String {
    match manager().validate_cookie_content(content) {
        Err(e) => e.to_string(),
        Ok(()) => panic!("expected a fault in {:?}", content),
    }
}

#[test]
fn faults_of_a_cookie_file() {
    assert_eq!(fault(""), "Invalid cookie format: Cookie file is empty");
    assert_eq!(fault("\n"), "Invalid cookie format: No valid cookie lines found");
    assert_eq!(fault("# only a comment\n   \n"), "Invalid cookie format: No valid cookie lines found");
    assert_eq!(
        fault("invalid\tformat"),
        "Invalid cookie format: Invalid cookie line format: expected at least 6 tab-separated fields, got 2"
    );
    assert_eq!(
        fault("single"),
        "Invalid cookie format: Invalid cookie line format: expected at least 6 tab-separated fields, got 1"
    );
    assert_eq!(
        fault(".example.com\tTRUE\t/\tTRUE\t1\tn"),
        "Cookie validation failed: No YouTube cookies found. Make sure to export cookies from youtube.com or music.youtube.com"
    );
    // the first short line settles it, whatever follows
    assert_eq!(
        fault(".youtube.com\tTRUE\t/\tTRUE\t1\tn\na\tb\tc\n.youtube.com\tTRUE\t/\tTRUE\t1\tn"),
        "Invalid cookie format: Invalid cookie line format: expected at least 6 tab-separated fields, got 3"
    );
    assert!(matches!(
        manager().validate_cookie_content("x"),
        Err(CookieError::InvalidFormat(_))
    ));
    assert!(matches!(
        manager().validate_cookie_content("a\tb\tc\td\te\tf"),
        Err(CookieError::ValidationError(_))
    ));
}

#[test]
fn cookie_files_that_are_valid() {
    let m = manager();
    // six fields are enough, with windows line endings and blank lines
    assert!(m
        .validate_cookie_content("\r\n  music.youtube.com\tTRUE\t/\tTRUE\t1\tname  \r\n\r\n")
        .is_ok());
    assert!(m
        .validate_cookie_content("a\tb\tc\td\te\tf\n#x\n.youtube.com\t\t\t\t\tn")
        .is_ok());
    // a line is trimmed before it is split: tabs at its end are no fields
    assert_eq!(
        fault(".youtube.com\t\t\t\t\t"),
        "Invalid cookie format: Invalid cookie line format: expected at least 6 tab-separated fields, got 1"
    );
}

fn cookie(domain: &str, expiration: &str, name: &str, value: &str) -> String {
    format!("{}\tTRUE\t/\tTRUE\t{}\t{}\t{}", domain, expiration, name, value)
}

#[test]
fn analysis_at_a_given_time() {
    let m = manager();
    let now: i64 = 1_000_000;
    let day: i64 = 86_400;
    let content = [
        "# Netscape HTTP Cookie File".to_string(),
        cookie(".youtube.com", &(now - 2 * day).to_string(), "OLD", "v"),
        cookie(".youtube.com", &(now - day).to_string(), "DAYOLD", "v"),
        cookie(".youtube.com", &(now - day + 1).to_string(), "JUSTNOW", "v"),
        cookie(".youtube.com", &(now + 3 * day + 5).to_string(), "SOON", "v"),
        cookie(".youtube.com", &(now + 7 * day - 1).to_string(), "WEEK", "v"),
        cookie(".youtube.com", &(now + 7 * day).to_string(), "LATER", "v"),
        cookie(".youtube.com", "never", "NONUMBER", "v"),
        // an empty value shows only where something follows it on the line
        cookie(".youtube.com", &(now + 100 * day).to_string(), "SAPISID", "\tmore"),
        cookie(".youtube.com", &(now + 100 * day).to_string(), "SSID", ""),
        cookie(".example.com", "1", "HSID", "\tmore"),
        "short\tline".to_string(),
    ]
    .join("\n");
    let info = m.analyze_cookies_at(&content, now).unwrap();
    assert!(info.is_valid);
    assert!(!info.po_token_present);
    assert_eq!(info.file_path, None);
    assert_eq!(
        info.expiration_warning,
        Some(
            "Cookie 'OLD' has expired; Cookie 'DAYOLD' has expired; Cookie 'JUSTNOW' expires in 0 days; Cookie 'SOON' expires in 3 days; Cookie 'WEEK' expires in 6 days; Important cookie 'SAPISID' is empty"
                .to_string()
        )
    );
}

#[test]
fn analysis_without_findings() {
    let m = manager();
    let info = m.analyze_cookies_at("", 0).unwrap();
    assert!(!info.is_valid);
    assert!(!info.po_token_present);
    assert_eq!(info.expiration_warning, None);

    // six fields are a cookie for validation, but not for analysis
    let info = m.analyze_cookies_at(".youtube.com\tTRUE\t/\tTRUE\t1\tPO", 0).unwrap();
    assert!(!info.is_valid);
    assert!(!info.po_token_present);

    // cookies of other domains count for nothing
    let info = m.analyze_cookies_at(&cookie(".example.com", "1", "PO", ""), 1_000_000).unwrap();
    assert!(!info.is_valid);
    assert!(!info.po_token_present);
    assert_eq!(info.expiration_warning, None);
}

#[test]
fn po_tokens() {
    let m = manager();
    let far = "9999999999";
    for name in ["__Secure-YT-Core-PO-Token", "xPOx", "PO"] {
        let info = m.analyze_cookies_at(&cookie("music.youtube.com", far, name, "v"), 0).unwrap();
        assert!(info.po_token_present, "{}", name);
        assert!(info.is_valid);
        assert_eq!(info.expiration_warning, None);
    }
    let info = m.analyze_cookies_at(&cookie("music.youtube.com", far, "po", "v"), 0).unwrap();
    assert!(!info.po_token_present);
}

#[test]
fn expirations_at_the_ends_of_the_range() {
    let m = manager();
    let info = m
        .analyze_cookies_at(
            &cookie(".youtube.com", "-9223372036854775808", "A", "v"),
            9223372036854775807,
        )
        .unwrap();
    assert_eq!(info.expiration_warning, Some("Cookie 'A' has expired".to_string()));
    let info = m
        .analyze_cookies_at(
            &cookie(".youtube.com", "9223372036854775807", "A", "v"),
            -9223372036854775808,
        )
        .unwrap();
    assert_eq!(info.expiration_warning, None);
    let info = m
        .analyze_cookies_at(&cookie(".youtube.com", "9223372036854775808", "A", "v"), 0)
        .unwrap();
    assert_eq!(info.expiration_warning, None);
    let info = m.analyze_cookies_at(&cookie(".youtube.com", "+5", "A", "v"), 5).unwrap();
    assert_eq!(info.expiration_warning, Some("Cookie 'A' expires in 0 days".to_string()));
}

#[test]
fn cookie_error_messages() {
    assert_eq!(
        CookieError::FileNotFound("/x/cookies.txt".to_string()).to_string(),
        "Cookie file not found: /x/cookies.txt"
    );
    assert_eq!(
        CookieError::InvalidFormat("m".to_string()).to_string(),
        "Invalid cookie format: m"
    );
    assert_eq!(
        CookieError::ValidationError("m".to_string()).to_string(),
        "Cookie validation failed: m"
    );
    assert_eq!(
        CookieError::ReadError(std::io::Error::new(std::io::ErrorKind::Other, "bad disk"))
            .to_string(),
        "Failed to read cookie file: bad disk"
    );
}
