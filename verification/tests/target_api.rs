use tiered_sync::api::windows::get_enabled_target_api_features;
use tiered_sync::api::windows::ANSI_WINDOWS_VERSIONS;
use tiered_sync::api::windows::WINDOWS_VERSIONS;

fn request(names: &[&str]) -> Vec<String> {
    names.iter().map(|name| name.to_string()).collect()
}

#[test]
fn no_request_enables_nothing() {
    assert!(get_enabled_target_api_features(&[]).is_empty());
}

#[test]
fn unknown_names_enable_nothing() {
    assert!(get_enabled_target_api_features(&request(&["11.0.22000", "", "xp"])).is_empty());
}

#[test]
fn one_nt_version_enables_all_up_to_itself() {
    let features = get_enabled_target_api_features(&request(&["5.1.2600"]));
    assert_eq!(
        features,
        vec!["3.10.511", "3.10.528", "3.50.807", "3.51.1057", "4.0.1381", "5.0.2195", "5.1.2600"]
    );
}

#[test]
fn oldest_version_enables_itself_alone() {
    assert_eq!(get_enabled_target_api_features(&request(&["3.10.511"])), vec!["3.10.511"]);
    assert_eq!(get_enabled_target_api_features(&request(&["4.00.950"])), vec!["4.00.950"]);
}

#[test]
fn newest_of_several_requests_counts() {
    let features =
        get_enabled_target_api_features(&request(&["3.50.807", "4.0.1381", "3.10.528"]));
    assert_eq!(features, WINDOWS_VERSIONS[..=4].to_vec());
    let features =
        get_enabled_target_api_features(&request(&["4.0.1381", "3.50.807", "bogus"]));
    assert_eq!(features, WINDOWS_VERSIONS[..=4].to_vec());
}

#[test]
fn newest_version_enables_the_whole_line() {
    let features = get_enabled_target_api_features(&request(&["10.0.19041"]));
    assert_eq!(features, WINDOWS_VERSIONS.to_vec());
    let features = get_enabled_target_api_features(&request(&["4.90.3000"]));
    assert_eq!(features, ANSI_WINDOWS_VERSIONS.to_vec());
}

#[test]
fn both_lines_are_enabled_side_by_side() {
    let features = get_enabled_target_api_features(&request(&["4.10.2222", "4.0.1381"]));
    let mut expected = WINDOWS_VERSIONS[..=4].to_vec();
    expected.extend(&ANSI_WINDOWS_VERSIONS[..=5]);
    assert_eq!(features, expected);
    assert_eq!(features.len(), 11);
    assert_eq!(features[5], "4.00.950");
}

#[test]
fn version_names_match_exactly() {
    assert!(get_enabled_target_api_features(&request(&["4.00.950 "])).is_empty());
    assert_eq!(get_enabled_target_api_features(&request(&["4.00.950 B"])).len(), 3);
    assert!(get_enabled_target_api_features(&request(&["4.0.950"])).is_empty());
}
