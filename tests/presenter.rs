use audit_presenter::config::{OutputConfig, OutputFormat};
use audit_presenter::output::{Line, Severity};
use audit_presenter::presenter::Presenter;
use audit_presenter::report::{
    Advisory, PackageId, Report, Vulnerability, VulnerabilityInfo, Warning,
};

fn human(show_tree: Option<bool>) -> OutputConfig {
    OutputConfig { format: OutputFormat::Human, quiet: false, show_tree }
}

fn package(name: &str, version: &str) -> PackageId {
    PackageId {
        name: name.to_string(),
        version: version.to_string(),
        source: Some("registry+https://github.com/rust-lang/crates.io-index".to_string()),
    }
}

fn advisory(id: &str, url: Option<&str>) -> Advisory {
    Advisory {
        id: id.to_string(),
        date: "2020-01-31".to_string(),
        title: format!("Flaw described by {}", id),
        url: url.map(|u| u.to_string()),
    }
}

fn vulnerability(id: &str, pkg: PackageId, patched: &[&str]) -> Vulnerability {
    Vulnerability {
        advisory: advisory(id, None),
        package: pkg,
        patched: patched.iter().map(|p| p.to_string()).collect(),
    }
}

fn warning(id: &str, pkg: PackageId) -> Warning {
    Warning { advisory: advisory(id, None), package: pkg }
}

fn report(list: Vec<Vulnerability>, count: usize, warnings: Vec<Warning>) -> Report {
    Report {
        vulnerabilities: VulnerabilityInfo { found: !list.is_empty(), count, list },
        warnings,
    }
}

fn attr(severity: Severity, label: &str, content: &str) -> Line {
    Line::Attr { severity, label: label.to_string(), content: content.to_string() }
}

fn trees(lines: &[Line]) -> Vec<PackageId> {
    lines
        .iter()
        .filter_map(|l| match l {
            Line::Tree { package } => Some(package.clone()),
            _ => None,
        })
        .collect()
}

fn is_drawing(l: &Line) -> bool {
    matches!(l, Line::Tree { .. } | Line::TreeHeader { .. })
}

#[test]
fn clean_report_prints_only_success() {
    let mut p = Presenter::new(&human(None));
    let lines = p.print_report(&report(vec![], 0, vec![]));
    assert_eq!(
        lines,
        vec![
            Line::Success {
                label: "Success".to_string(),
                message: "No vulnerable packages found".to_string(),
            },
            Line::LoadTree,
        ]
    );
}

#[test]
fn vulnerability_lines_in_order() {
    let mut p = Presenter::new(&human(None));
    let v = vulnerability("RUSTSEC-2020-0001", package("smallvec", "1.0.0"), &["1.2.3", "2.0.0"]);
    let lines = p.print_report(&report(vec![v], 1, vec![]));
    let c = Severity::Critical;
    assert_eq!(
        lines,
        vec![
            Line::Error { message: "Vulnerable crates found!".to_string() },
            Line::LoadTree,
            Line::Blank,
            attr(c, "ID:      ", "RUSTSEC-2020-0001"),
            attr(c, "Crate:   ", "smallvec"),
            attr(c, "Version: ", "1.0.0"),
            attr(c, "Date:    ", "2020-01-31"),
            attr(c, "URL:     ", "https://rustsec.org/advisories/RUSTSEC-2020-0001"),
            attr(c, "Title:   ", "Flaw described by RUSTSEC-2020-0001"),
            attr(c, "Solution: upgrade to", "1.2.3 OR 2.0.0"),
            Line::TreeHeader { severity: c },
            Line::Tree { package: package("smallvec", "1.0.0") },
            Line::Blank,
            Line::Error { message: "1 vulnerability found!".to_string() },
        ]
    );
}

#[test]
fn warning_lines_in_order() {
    let mut p = Presenter::new(&human(None));
    let mut w = warning("GHSA-4mmc-49vf-jmcp", package("time", "0.1.0"));
    w.advisory.url = Some("https://example.org/advisory".to_string());
    let lines = p.print_report(&report(vec![], 0, vec![w]));
    let i = Severity::Informational;
    let c = Severity::Critical;
    assert_eq!(
        lines,
        vec![
            Line::Success {
                label: "Success".to_string(),
                message: "No vulnerable packages found".to_string(),
            },
            Line::LoadTree,
            Line::Blank,
            Line::Warn { message: "found informational advisories for dependencies".to_string() },
            Line::Blank,
            attr(i, "Crate:   ", "time"),
            attr(c, "Title: ", "Flaw described by GHSA-4mmc-49vf-jmcp"),
            attr(c, "Date:    ", "2020-01-31"),
            attr(i, "URL:     ", "https://github.com/advisories/GHSA-4mmc-49vf-jmcp"),
            Line::TreeHeader { severity: i },
            Line::Tree { package: package("time", "0.1.0") },
        ]
    );
}

#[test]
fn tree_drawn_once_for_repeated_package() {
    let mut p = Presenter::new(&human(Some(true)));
    let a = package("a", "1.0.0");
    let b = package("b", "2.0.0");
    let r = report(
        vec![
            vulnerability("RUSTSEC-2020-0001", a.clone(), &[]),
            vulnerability("RUSTSEC-2020-0002", a.clone(), &[]),
            vulnerability("RUSTSEC-2020-0003", b.clone(), &[]),
        ],
        3,
        vec![warning("RUSTSEC-2021-0001", a.clone()), warning("RUSTSEC-2021-0002", b.clone())],
    );
    let lines = p.print_report(&r);
    assert_eq!(trees(&lines), vec![a, b]);
    let headers = lines.iter().filter(|l| matches!(l, Line::TreeHeader { .. })).count();
    assert_eq!(headers, 2);
}

#[test]
fn same_name_other_version_is_another_package() {
    let mut p = Presenter::new(&human(None));
    let r = report(
        vec![
            vulnerability("RUSTSEC-2020-0001", package("a", "1.0.0"), &[]),
            vulnerability("RUSTSEC-2020-0002", package("a", "1.1.0"), &[]),
        ],
        2,
        vec![],
    );
    let lines = p.print_report(&r);
    assert_eq!(trees(&lines), vec![package("a", "1.0.0"), package("a", "1.1.0")]);
}

#[test]
fn same_version_other_source_is_another_package() {
    let mut p = Presenter::new(&human(None));
    let mut local = package("a", "1.0.0");
    local.source = None;
    let r = report(
        vec![
            vulnerability("RUSTSEC-2020-0001", package("a", "1.0.0"), &[]),
            vulnerability("RUSTSEC-2020-0002", local.clone(), &[]),
        ],
        2,
        vec![],
    );
    let lines = p.print_report(&r);
    assert_eq!(trees(&lines), vec![package("a", "1.0.0"), local]);
}

#[test]
fn trees_off_drops_only_drawings() {
    let r = report(
        vec![
            vulnerability("RUSTSEC-2020-0001", package("a", "1.0.0"), &["1.1.0"]),
            vulnerability("CVE-2021-1234", package("b", "0.3.0"), &[]),
        ],
        2,
        vec![warning("RUSTSEC-2021-0001", package("c", "0.1.0"))],
    );
    let on = Presenter::new(&human(Some(true))).print_report(&r);
    let off = Presenter::new(&human(Some(false))).print_report(&r);
    assert!(on.iter().any(is_drawing));
    assert!(!off.iter().any(is_drawing));
    let stripped: Vec<Line> = on.into_iter().filter(|l| !is_drawing(l)).collect();
    assert_eq!(off, stripped);
    assert_eq!(off.last(), Some(&Line::Error { message: "2 vulnerabilities found!".to_string() }));
}

#[test]
fn package_seen_with_trees_off_stays_seen() {
    let a = package("a", "1.0.0");
    let r = report(vec![vulnerability("RUSTSEC-2020-0001", a.clone(), &[])], 1, vec![]);
    let mut p = Presenter::new(&human(Some(false)));
    let first = p.print_report(&r);
    assert!(trees(&first).is_empty());
    let second = p.print_report(&r);
    assert!(trees(&second).is_empty());
    let mut fresh = Presenter::new(&human(Some(true)));
    assert_eq!(trees(&fresh.print_report(&r)), vec![a]);
}

#[test]
fn second_report_does_not_redraw() {
    let a = package("a", "1.0.0");
    let r = report(vec![vulnerability("RUSTSEC-2020-0001", a.clone(), &[])], 1, vec![]);
    let mut p = Presenter::new(&human(None));
    assert_eq!(trees(&p.print_report(&r)), vec![a]);
    assert!(trees(&p.print_report(&r)).is_empty());
}

#[test]
fn structured_mode_emits_report_only() {
    let a = package("a", "1.0.0");
    let r = report(
        vec![vulnerability("RUSTSEC-2020-0001", a.clone(), &[])],
        1,
        vec![warning("RUSTSEC-2021-0001", a.clone())],
    );
    for show_tree in [None, Some(true), Some(false)] {
        let config = OutputConfig { format: OutputFormat::Structured, quiet: false, show_tree };
        let mut p = Presenter::new(&config);
        assert_eq!(p.print_report(&r), vec![Line::Structured]);
        assert_eq!(p.print_report(&r), vec![Line::Structured]);
    }
}

#[test]
fn count_line_uses_reported_count() {
    let mut p = Presenter::new(&human(Some(false)));
    let r = report(vec![vulnerability("RUSTSEC-2020-0001", package("a", "1.0.0"), &[])], 3, vec![]);
    let lines = p.print_report(&r);
    assert_eq!(lines.last(), Some(&Line::Error { message: "3 vulnerabilities found!".to_string() }));
}

#[test]
fn scanning_line_names_path_and_count() {
    let mut p = Presenter::new(&human(None));
    assert_eq!(
        p.before_report("/src/Cargo.lock", 42),
        Some(Line::Success {
            label: "Scanning".to_string(),
            message: "/src/Cargo.lock for vulnerabilities (42 crate dependencies)".to_string(),
        })
    );
}

#[test]
fn quiet_presenter_announces_nothing() {
    let mut p = Presenter::new(&OutputConfig {
        format: OutputFormat::Human,
        quiet: true,
        show_tree: None,
    });
    assert_eq!(p.before_report("Cargo.lock", 7), None);
}
