//! Addresses typed for a browser pane.

use herdr::browser::url::{has_scheme, normalize};


#[test]
fn full_urls_pass_through_unchanged() {
    assert_eq!(
        normalize("https://example.com/a?b=c").as_deref(),
        Ok("https://example.com/a?b=c")
    );
    assert_eq!(normalize("about:blank").as_deref(), Ok("about:blank"));
    assert_eq!(
        normalize("  http://example.com  ").as_deref(),
        Ok("http://example.com")
    );
}

#[test]
fn bare_hosts_get_https() {
    assert_eq!(
        normalize("example.com").as_deref(),
        Ok("https://example.com")
    );
    assert_eq!(
        normalize("example.com/path").as_deref(),
        Ok("https://example.com/path")
    );
    // A port is not a scheme.
    assert_eq!(
        normalize("localhost:3000").as_deref(),
        Ok("https://localhost:3000")
    );
}

#[test]
fn flag_shaped_urls_are_refused() {
    // The whole point: this would reach the CLI as an argument.
    assert!(normalize("--version").is_err());
    assert!(normalize("--session").is_err());
    assert!(normalize("").is_err());
    assert!(normalize("   ").is_err());
    assert!(normalize("https://example.com /etc").is_err());
}

#[test]
fn unsupported_schemes_are_refused() {
    assert!(normalize("javascript:alert(1)").is_err());
    assert!(normalize("data:text/html,hi").is_err());
    assert!(normalize("ftp://example.com").is_err());
}

#[test]
fn a_normalized_address_stays_what_it_is() {
    for url in ["example.com", "localhost:3000", "  HTTPS://Example.com  ", "about:blank"] {
        let once = normalize(url).expect("an address");
        assert_eq!(normalize(&once), Ok(once.clone()));
    }
}

#[test]
fn schemes_are_told_from_ports() {
    assert!(has_scheme("mailto:me"));
    assert!(!has_scheme("localhost:3000"));
    assert!(!has_scheme("example.com"));
}
