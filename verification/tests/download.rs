use better_ept::fetch::fetch_outcome;
use better_ept::fetch::user_agent;
use better_ept::package::Package;
use better_ept::package::PackageError;

fn sample() -> Package {
    Package {
        name: "libfoo".to_string(),
        author: "alice".to_string(),
        version: "1.2.0".to_string(),
        types: "lib".to_string(),
    }
}

#[test]
fn download_url_under_slash_terminated_base() {
    let url = sample().get_download_url("https://example.com/pkgs/".to_string()).unwrap();
    assert_eq!(url, "https://example.com/pkgs/lib/libfoo_1.2.0_alice.7z");
}

#[test]
fn download_url_replaces_last_segment_without_trailing_slash() {
    let url = sample().get_download_url("https://example.com/pkgs".to_string()).unwrap();
    assert_eq!(url, "https://example.com/lib/libfoo_1.2.0_alice.7z");
}

#[test]
fn download_url_is_deterministic() {
    let a = sample().get_download_url("https://example.com/pkgs/".to_string()).unwrap();
    let b = sample().get_download_url("https://example.com/pkgs/".to_string()).unwrap();
    assert_eq!(a, b);
}

#[test]
fn download_url_rejects_malformed_base() {
    let r = sample().get_download_url("not a base url".to_string());
    assert!(matches!(r, Err(PackageError::UrlError)));
}

#[test]
fn download_url_rejects_relative_base() {
    let r = sample().get_download_url("pkgs/archive".to_string());
    assert!(matches!(r, Err(PackageError::UrlError)));
}

#[test]
fn success_statuses_accept_the_response() {
    assert!(fetch_outcome(200).is_ok());
    assert!(fetch_outcome(204).is_ok());
    assert!(fetch_outcome(299).is_ok());
}

#[test]
fn non_success_statuses_carry_their_status() {
    match fetch_outcome(404) {
        Err(PackageError::NetworkError { status }) => assert_eq!(status, 404),
        _ => panic!("expected a network error"),
    }
    assert!(matches!(
        fetch_outcome(199),
        Err(PackageError::NetworkError { status: 199 })
    ));
    assert!(matches!(
        fetch_outcome(300),
        Err(PackageError::NetworkError { status: 300 })
    ));
    assert!(matches!(
        fetch_outcome(500),
        Err(PackageError::NetworkError { status: 500 })
    ));
}

#[test]
fn user_agent_is_the_fixed_identity() {
    assert_eq!(user_agent(), "Better-Ept/1.1 (Powered By Rust && Reqwest)");
}
