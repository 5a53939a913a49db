use koala_clash::sys_info::{extract_after, find_pattern, get_system_info, trim_str, OsProbe};

#[test]
fn trim_removes_surrounding_whitespace_only() {
    assert_eq!(trim_str("  a b \t\n"), "a b".to_string());
    assert_eq!(trim_str(""), String::new());
    assert_eq!(trim_str(" \r\n\t "), String::new());
    assert_eq!(trim_str("plain"), "plain".to_string());
}

#[test]
fn pattern_search_finds_the_first_occurrence() {
    assert_eq!(find_pattern("abcabc", "ca"), Some(2));
    assert_eq!(find_pattern("abc", "zz"), None);
    assert_eq!(find_pattern("abc", ""), Some(0));
}

#[test]
fn extract_after_takes_the_rest_of_the_line() {
    let profile = "Hardware:\n      Model Name: MacBook Pro\n      Chip: M1\n";
    assert_eq!(
        extract_after(profile, "Model Name:"),
        Some("MacBook Pro".to_string())
    );
    assert_eq!(extract_after(profile, "Serial:"), None);
}

#[test]
fn windows_version_prefers_display_version_then_release_then_build() {
    let info = get_system_info(
        Some("h1".to_string()),
        OsProbe::Windows {
            display_version: Some("24H2".to_string()),
            release_id: Some("2009".to_string()),
            current_build: Some("26100".to_string()),
            product_name: Some("Windows 11 Pro".to_string()),
        },
    );
    assert_eq!(info.hwid, "h1".to_string());
    assert_eq!(info.os_type, "Windows".to_string());
    assert_eq!(info.os_ver, "24H2".to_string());
    assert_eq!(info.device_model, "Windows 11 Pro".to_string());

    let info = get_system_info(
        None,
        OsProbe::Windows {
            display_version: None,
            release_id: Some("2009".to_string()),
            current_build: Some("26100".to_string()),
            product_name: None,
        },
    );
    assert_eq!(info.hwid, "unknown_hwid".to_string());
    assert_eq!(info.os_ver, "2009".to_string());
    assert_eq!(info.device_model, "Windows".to_string());

    let info = get_system_info(
        None,
        OsProbe::Windows {
            display_version: None,
            release_id: None,
            current_build: Some("26100".to_string()),
            product_name: None,
        },
    );
    assert_eq!(info.os_ver, "Build 26100".to_string());

    let info = get_system_info(
        None,
        OsProbe::Windows {
            display_version: None,
            release_id: None,
            current_build: None,
            product_name: None,
        },
    );
    assert_eq!(info.os_ver, "Unknown".to_string());
}

#[test]
fn mac_model_prefers_sysctl_then_profile_then_fallback() {
    let info = get_system_info(
        None,
        OsProbe::MacOs {
            product_version: Some(" 14.5 \n".to_string()),
            fallback_version: "14.0".to_string(),
            sysctl_model: Some("  MacBookPro18,3\n".to_string()),
            profiler_output: None,
        },
    );
    assert_eq!(info.os_type, "macOS".to_string());
    assert_eq!(info.os_ver, "14.5".to_string());
    assert_eq!(info.device_model, "MacBookPro18,3".to_string());

    let info = get_system_info(
        None,
        OsProbe::MacOs {
            product_version: None,
            fallback_version: "14.0".to_string(),
            sysctl_model: Some("   \n".to_string()),
            profiler_output: Some(
                "Hardware:\n      Model Name: MacBook Pro\n      Chip: M1\n".to_string(),
            ),
        },
    );
    assert_eq!(info.os_ver, "14.0".to_string());
    assert_eq!(info.device_model, "MacBook Pro".to_string());

    let info = get_system_info(
        None,
        OsProbe::MacOs {
            product_version: None,
            fallback_version: "14.0".to_string(),
            sysctl_model: None,
            profiler_output: None,
        },
    );
    assert_eq!(info.device_model, "Mac".to_string());
}

#[test]
fn linux_version_falls_back_to_unknown() {
    let info = get_system_info(
        None,
        OsProbe::Linux { version: "22.04".to_string(), distro_name: "Ubuntu".to_string() },
    );
    assert_eq!(info.os_type, "Linux".to_string());
    assert_eq!(info.os_ver, "22.04".to_string());
    assert_eq!(info.device_model, "Ubuntu".to_string());

    let info = get_system_info(
        None,
        OsProbe::Linux { version: "Unknown".to_string(), distro_name: "Arch".to_string() },
    );
    assert_eq!(info.os_ver, "Unknown".to_string());

    let info = get_system_info(
        None,
        OsProbe::Linux { version: String::new(), distro_name: "Arch".to_string() },
    );
    assert_eq!(info.os_ver, "Unknown".to_string());
}
