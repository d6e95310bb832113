use nixpkgs_track::utils::{
    parse_pull_request_id, pull_request_in_url, resolve_pull_request_id, UrlParts,
};

fn parts(domain: Option<&str>, segments: Option<&[&str]>) -> UrlParts {
    UrlParts {
        domain: domain.map(|d| d.to_string()),
        segments: segments.map(|s| s.iter().map(|p| p.to_string()).collect()),
    }
}

const EXPECTED: &str = "expected format: <u64> or https://github.com/nixos/nixpkgs/pull/<u64>";

#[test]
#[should_panic(expected = "malformed pull request ID or URL")]
fn test_parse_invalid_pull_request_id() {
    parse_pull_request_id("invalid").unwrap();
}

#[test]
fn test_parse_valid_pull_request_id() {
    assert_eq!(parse_pull_request_id("370713").unwrap(), 370713);
    assert_eq!(parse_pull_request_id("https://github.com/nixos/nixpkgs/pull/370713").unwrap(), 370713);
    assert_eq!(
        parse_pull_request_id("https://github.com/NixOS/nixpkgs/pull/392611/files#diff-7b2093bb8f2a6170ffb914e178c91654f6d14c00ab17e9b4d8092fa943deb7b0").unwrap(),
        392611
    );
}

#[test]
fn resolver_accepts_any_casing_of_the_address() {
    assert_eq!(parse_pull_request_id("https://github.com/NixOS/nixpkgs/pull/370713"), Ok(370713));
    assert_eq!(parse_pull_request_id("HTTPS://GITHUB.COM/NIXOS/NIXPKGS/PULL/370713"), Ok(370713));
    assert_eq!(parse_pull_request_id("https://GitHub.com/nixos/Nixpkgs/Pull/370713"), Ok(370713));
}

#[test]
fn resolver_ignores_what_follows_the_number() {
    assert_eq!(parse_pull_request_id("https://github.com/nixos/nixpkgs/pull/42/"), Ok(42));
    assert_eq!(parse_pull_request_id("https://github.com/nixos/nixpkgs/pull/42/files"), Ok(42));
    assert_eq!(parse_pull_request_id("https://github.com/nixos/nixpkgs/pull/42/commits/abc"), Ok(42));
    assert_eq!(parse_pull_request_id("https://github.com/nixos/nixpkgs/pull/42#issuecomment-1"), Ok(42));
    assert_eq!(parse_pull_request_id("https://github.com/nixos/nixpkgs/pull/42?diff=split"), Ok(42));
}

#[test]
fn resolver_reports_malformed_input_with_the_input() {
    assert_eq!(
        parse_pull_request_id("invalid"),
        Err(format!("malformed pull request ID or URL: invalid. {}", EXPECTED))
    );
    assert_eq!(
        parse_pull_request_id(""),
        Err(format!("malformed pull request ID or URL: . {}", EXPECTED))
    );
    // The message shows the input as it was typed, not in lower case.
    assert_eq!(
        parse_pull_request_id("https://Example.com/NixOS/nixpkgs/pull/1"),
        Err(format!(
            "malformed pull request ID or URL: https://Example.com/NixOS/nixpkgs/pull/1. {}",
            EXPECTED
        ))
    );
}

#[test]
fn resolver_rejects_other_hosts() {
    assert!(parse_pull_request_id("https://gitlab.com/nixos/nixpkgs/pull/370713").is_err());
    assert!(parse_pull_request_id("https://api.github.com/nixos/nixpkgs/pull/370713").is_err());
    assert!(parse_pull_request_id("https://github.com.evil.example/nixos/nixpkgs/pull/1").is_err());
    assert!(parse_pull_request_id("https://140.82.112.3/nixos/nixpkgs/pull/1").is_err());
}

#[test]
fn resolver_rejects_other_paths() {
    assert!(parse_pull_request_id("https://github.com/nixos/nixpkgs/issues/370713").is_err());
    assert!(parse_pull_request_id("https://github.com/nixos/nix/pull/370713").is_err());
    assert!(parse_pull_request_id("https://github.com/other/nixpkgs/pull/370713").is_err());
    assert!(parse_pull_request_id("https://github.com/nixos/nixpkgs/pull").is_err());
    assert!(parse_pull_request_id("https://github.com/nixos/nixpkgs/pull/").is_err());
    assert!(parse_pull_request_id("https://github.com/nixos/nixpkgs").is_err());
    assert!(parse_pull_request_id("https://github.com/").is_err());
}

#[test]
fn resolver_rejects_a_number_that_is_none() {
    assert!(parse_pull_request_id("https://github.com/nixos/nixpkgs/pull/abc").is_err());
    assert!(parse_pull_request_id("https://github.com/nixos/nixpkgs/pull/-1").is_err());
    assert!(parse_pull_request_id("https://github.com/nixos/nixpkgs/pull/12a").is_err());
    assert!(parse_pull_request_id("https://github.com/nixos/nixpkgs/pull/18446744073709551616").is_err());
    assert!(parse_pull_request_id("-5").is_err());
    assert!(parse_pull_request_id("12 ").is_err());
    assert!(parse_pull_request_id("18446744073709551616").is_err());
}

#[test]
fn resolver_rejects_what_is_no_absolute_url() {
    assert!(parse_pull_request_id("github.com/nixos/nixpkgs/pull/370713").is_err());
    assert!(parse_pull_request_id("/nixos/nixpkgs/pull/370713").is_err());
    assert!(parse_pull_request_id("mailto:nixos/nixpkgs/pull/1").is_err());
}

#[test]
fn resolver_reads_the_largest_number() {
    assert_eq!(parse_pull_request_id("18446744073709551615"), Ok(u64::MAX));
    assert_eq!(
        parse_pull_request_id("https://github.com/nixos/nixpkgs/pull/18446744073709551615"),
        Ok(u64::MAX)
    );
    assert_eq!(parse_pull_request_id("0"), Ok(0));
}

#[test]
fn number_in_url_needs_host_and_path() {
    let good = parts(Some("github.com"), Some(&["nixos", "nixpkgs", "pull", "17"]));
    assert_eq!(pull_request_in_url(&good), Some(17));
    let longer = parts(Some("github.com"), Some(&["nixos", "nixpkgs", "pull", "17", "files"]));
    assert_eq!(pull_request_in_url(&longer), Some(17));
    assert_eq!(pull_request_in_url(&parts(None, Some(&["nixos", "nixpkgs", "pull", "17"]))), None);
    assert_eq!(
        pull_request_in_url(&parts(Some("example.com"), Some(&["nixos", "nixpkgs", "pull", "17"]))),
        None
    );
    assert_eq!(pull_request_in_url(&parts(Some("github.com"), None)), None);
    assert_eq!(pull_request_in_url(&parts(Some("github.com"), Some(&["nixos", "nixpkgs", "pull"]))), None);
    assert_eq!(
        pull_request_in_url(&parts(Some("github.com"), Some(&["NixOS", "nixpkgs", "pull", "17"]))),
        None
    );
    assert_eq!(
        pull_request_in_url(&parts(Some("github.com"), Some(&["nixos", "nixpkgs", "pull", "x"]))),
        None
    );
}

#[test]
fn resolve_prefers_the_plain_number() {
    let url = Some(parts(Some("github.com"), Some(&["nixos", "nixpkgs", "pull", "17"])));
    assert_eq!(resolve_pull_request_id("5", &url), Ok(5));
    assert_eq!(resolve_pull_request_id("x", &url), Ok(17));
    assert_eq!(
        resolve_pull_request_id("x", &None),
        Err(format!("malformed pull request ID or URL: x. {}", EXPECTED))
    );
}
