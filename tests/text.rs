use audit_presenter::advisory_url::{advisory_url, preferred_url};
use audit_presenter::text::{count_message, decimal_string, solution_text};

fn strings(parts: &[&str]) -> Vec<String> {
    parts.iter().map(|p| p.to_string()).collect()
}

#[test]
fn one_vulnerability_is_singular() {
    assert_eq!(count_message(1), "1 vulnerability found!");
}

#[test]
fn three_vulnerabilities_are_plural() {
    assert_eq!(count_message(3), "3 vulnerabilities found!");
}

#[test]
fn zero_and_large_counts_are_plural() {
    assert_eq!(count_message(0), "0 vulnerabilities found!");
    assert_eq!(count_message(1024), "1024 vulnerabilities found!");
}

#[test]
fn decimal_digits() {
    assert_eq!(decimal_string(0), "0");
    assert_eq!(decimal_string(9), "9");
    assert_eq!(decimal_string(10), "10");
    assert_eq!(decimal_string(907), "907");
    assert_eq!(decimal_string(usize::MAX), usize::MAX.to_string());
}

#[test]
fn solution_joins_with_or() {
    assert_eq!(solution_text(&strings(&["1.2.3", "2.0.0"])), "1.2.3 OR 2.0.0");
}

#[test]
fn solution_of_nothing_is_empty() {
    assert_eq!(solution_text(&vec![]), "");
}

#[test]
fn solution_of_one_range() {
    assert_eq!(solution_text(&strings(&[">= 0.4.2"])), ">= 0.4.2");
    assert_eq!(
        solution_text(&strings(&["^0.1.5", "^0.2.3", ">= 0.3.0"])),
        "^0.1.5 OR ^0.2.3 OR >= 0.3.0"
    );
}

#[test]
fn canonical_url_wins_over_explicit() {
    let explicit = Some("https://example.org/explicit".to_string());
    assert_eq!(
        preferred_url(Some("https://example.org/canonical".to_string()), &explicit),
        Some("https://example.org/canonical".to_string())
    );
    assert_eq!(preferred_url(None, &explicit), explicit);
    assert_eq!(preferred_url(None, &None), None);
}

#[test]
fn advisory_identifier_resolves_to_link() {
    let explicit = Some("https://example.org/explicit".to_string());
    assert_eq!(
        advisory_url(&"RUSTSEC-2020-0001".to_string(), &explicit),
        Some("https://rustsec.org/advisories/RUSTSEC-2020-0001".to_string())
    );
    assert_eq!(
        advisory_url(&"CVE-2017-1000168".to_string(), &None),
        Some("https://cve.mitre.org/cgi-bin/cvename.cgi?name=CVE-2017-1000168".to_string())
    );
}

#[test]
fn unresolvable_identifier_falls_back() {
    let explicit = Some("https://example.org/explicit".to_string());
    assert_eq!(advisory_url(&"OTHER-1".to_string(), &explicit), explicit);
    assert_eq!(advisory_url(&"OTHER-1".to_string(), &None), None);
    assert_eq!(advisory_url(&"RUSTSEC-0000-0000".to_string(), &None), None);
}
