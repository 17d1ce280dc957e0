//! The presenter: turns a report into its output lines, drawing each
//! package's inverse dependency tree only the first time the package appears.

use crate::advisory_url::{advisory_url, shown_url};
use crate::config::{OutputConfig, OutputFormat};
use crate::output::{emit, lines_view, Line, LineView, Severity};
use crate::report::{Advisory, PackageId, PackageKey, Report, Vulnerability, Warning};
use crate::text::{count_message, count_text, decimal, decimal_string, joined, solution_text};
use vstd::prelude::*;

verus! {

/// The lines of one finding before its tree, with the package whose tree
/// follows them and the colour the tree is drawn in.
pub struct Section {
    pub attrs: Seq<LineView>,
    pub severity: Severity,
    pub package: PackageKey,
}

pub open spec fn attr_line(severity: Severity, label: Seq<char>, content: Seq<char>) -> LineView {
    LineView::Attr { severity, label, content }
}

/// The URL line of an advisory, absent where it has no link at all.
pub open spec fn url_lines(severity: Severity, advisory: Advisory) -> Seq<LineView> {
    match shown_url(advisory.id@, advisory.url) {
        Some(u) => seq![attr_line(severity, "URL:     "@, u)],
        None => Seq::empty(),
    }
}

pub open spec fn vulnerability_section(v: Vulnerability) -> Section {
    let c = Severity::Critical;
    Section {
        attrs: seq![
            LineView::Blank,
            attr_line(c, "ID:      "@, v.advisory.id@),
            attr_line(c, "Crate:   "@, v.package.name@),
            attr_line(c, "Version: "@, v.package.version@),
            attr_line(c, "Date:    "@, v.advisory.date@),
        ] + url_lines(c, v.advisory) + seq![
            attr_line(c, "Title:   "@, v.advisory.title@),
            attr_line(c, "Solution: upgrade to"@, joined(v.patched@, " OR "@)),
        ],
        severity: c,
        package: v.package.key(),
    }
}

pub open spec fn warning_section(w: Warning) -> Section {
    let i = Severity::Informational;
    let c = Severity::Critical;
    Section {
        attrs: seq![
            LineView::Blank,
            attr_line(i, "Crate:   "@, w.package.name@),
            attr_line(c, "Title: "@, w.advisory.title@),
            attr_line(c, "Date:    "@, w.advisory.date@),
        ] + url_lines(i, w.advisory),
        severity: i,
        package: w.package.key(),
    }
}

pub open spec fn vulnerability_sections(vs: Seq<Vulnerability>) -> Seq<Section> {
    vs.map_values(|v: Vulnerability| vulnerability_section(v))
}

pub open spec fn warning_sections(ws: Seq<Warning>) -> Seq<Section> {
    ws.map_values(|w: Warning| warning_section(w))
}

/// The packages that the sections concern.
pub open spec fn section_keys(ss: Seq<Section>) -> Set<PackageKey> {
    Set::new(|k: PackageKey| exists|i: int| 0 <= i < ss.len() && ss[i].package == k)
}

/// The tree of `package`: drawn unless it was seen before or trees are off.
pub open spec fn tree_lines(
    show_tree: bool,
    seen: Set<PackageKey>,
    severity: Severity,
    package: PackageKey,
) -> Seq<LineView> {
    if seen.contains(package) || !show_tree {
        Seq::empty()
    } else {
        seq![LineView::TreeHeader { severity }, LineView::Tree { package }]
    }
}

/// The findings in order, each followed by its tree where that is due; every
/// package of an earlier finding counts as seen.
pub open spec fn sections_lines(ss: Seq<Section>, show_tree: bool, seen: Set<PackageKey>) -> Seq<
    LineView,
>
    decreases ss.len(),
{
    if ss.len() == 0 {
        Seq::empty()
    } else {
        sections_lines(ss.drop_last(), show_tree, seen) + ss.last().attrs + tree_lines(
            show_tree,
            seen + section_keys(ss.drop_last()),
            ss.last().severity,
            ss.last().package,
        )
    }
}

pub open spec fn status_line(found: bool) -> LineView {
    if found {
        LineView::Error { message: "Vulnerable crates found!"@ }
    } else {
        LineView::Success { label: "Success"@, message: "No vulnerable packages found"@ }
    }
}

pub open spec fn warnings_heading() -> Seq<LineView> {
    seq![
        LineView::Blank,
        LineView::Warn { message: "found informational advisories for dependencies"@ },
    ]
}

/// The human-readable output of `report`, given the packages already seen.
pub open spec fn human_lines(show_tree: bool, seen: Set<PackageKey>, report: Report) -> Seq<
    LineView,
> {
    let vs = vulnerability_sections(report.vulnerabilities.list@);
    let ws = warning_sections(report.warnings@);
    seq![status_line(report.vulnerabilities.found), LineView::LoadTree] + sections_lines(
        vs,
        show_tree,
        seen,
    ) + (if ws.len() > 0 {
        warnings_heading() + sections_lines(ws, show_tree, seen + section_keys(vs))
    } else {
        Seq::empty()
    }) + (if report.vulnerabilities.found {
        seq![
            LineView::Blank,
            LineView::Error { message: count_text(report.vulnerabilities.count as nat) },
        ]
    } else {
        Seq::empty()
    })
}

/// Everything a run writes for `report`.
pub open spec fn report_lines(config: OutputConfig, seen: Set<PackageKey>, report: Report) -> Seq<
    LineView,
> {
    if config.format == OutputFormat::Structured {
        seq![LineView::Structured]
    } else {
        human_lines(config.shows_tree(), seen, report)
    }
}

/// The packages seen after a run over `report`.
pub open spec fn seen_after(config: OutputConfig, seen: Set<PackageKey>, report: Report) -> Set<
    PackageKey,
> {
    if config.format == OutputFormat::Structured {
        seen
    } else {
        seen + section_keys(vulnerability_sections(report.vulnerabilities.list@)) + section_keys(
            warning_sections(report.warnings@),
        )
    }
}

/// The line announcing the scan of a lockfile with `count` packages.
pub open spec fn scanning_line(path: Seq<char>, count: nat) -> LineView {
    LineView::Success {
        label: "Scanning"@,
        message: path + " for vulnerabilities ("@ + decimal(count) + " crate dependencies)"@,
    }
}

proof fn lemma_keys_push(ss: Seq<Section>, s: Section)
    ensures
        section_keys(ss.push(s)) == section_keys(ss).insert(s.package),
{
    let l = section_keys(ss.push(s));
    let r = section_keys(ss).insert(s.package);
    assert forall|k: PackageKey| l.contains(k) implies r.contains(k) by {
        let i = choose|i: int| 0 <= i < ss.push(s).len() && ss.push(s)[i].package == k;
        if i < ss.len() {
            assert(ss[i].package == k);
        }
    }
    assert forall|k: PackageKey| r.contains(k) implies l.contains(k) by {
        if k == s.package {
            assert(ss.push(s)[ss.len() as int].package == k);
        } else {
            let i = choose|i: int| 0 <= i < ss.len() && ss[i].package == k;
            assert(ss.push(s)[i].package == k);
        }
    }
    assert(l =~= r);
}

/// Vulnerability information presenter.
pub struct Presenter {
    /// Packages whose tree has been considered, so no tree is drawn twice.
    displayed_packages: Vec<PackageId>,
    config: OutputConfig,
}

impl Presenter {
    /// The packages whose tree this presenter has already considered.
    pub closed spec fn displayed(&self) -> Set<PackageKey> {
        Set::new(
            |k: PackageKey|
                exists|i: int|
                    0 <= i < self.displayed_packages@.len() && self.displayed_packages@[i].key()
                        == k,
        )
    }

    pub closed spec fn config(&self) -> OutputConfig {
        self.config
    }

    /// A presenter that has displayed nothing yet.
    pub fn new(config: &OutputConfig) -> (r: Presenter)
        ensures
            r.displayed() == Set::<PackageKey>::empty(),
            r.config() == *config,
    {
        let r = Presenter { displayed_packages: Vec::new(), config: *config };
        assert(r.displayed() =~= Set::<PackageKey>::empty());
        r
    }

    fn has_displayed(&self, package: &PackageId) -> (r: bool)
        ensures
            r == self.displayed().contains(package.key()),
    {
        let mut i: usize = 0;
        while i < self.displayed_packages.len()
            invariant
                i <= self.displayed_packages@.len(),
                forall|j: int| 0 <= j < i ==> self.displayed_packages@[j].key() != package.key(),
            decreases self.displayed_packages@.len() - i,
        {
            if self.displayed_packages[i].same_identity(package) {
                assert(self.displayed_packages@[i as int].key() == package.key());
                return true;
            }
            i = i + 1;
        }
        false
    }

    /// Draws the inverse dependency tree of `package` the first time the
    /// package comes up. The package counts as seen from then on, also where
    /// trees are switched off.
    fn print_tree(&mut self, severity: Severity, package: &PackageId, out: &mut Vec<Line>)
        ensures
            final(self).displayed() == old(self).displayed().insert(package.key()),
            final(self).config() == old(self).config(),
            lines_view(final(out)@) == lines_view(old(out)@)
                + tree_lines(
                old(self).config().shows_tree(),
                old(self).displayed(),
                severity,
                package.key(),
            ),
    {
        let ghost before = out@;
        if self.has_displayed(package) {
            assert(old(self).displayed().insert(package.key()) =~= old(self).displayed());
            assert(lines_view(out@) =~= lines_view(before)
                + Seq::<LineView>::empty());
            return;
        }
        let ghost old_pkgs = self.displayed_packages@;
        self.displayed_packages.push(package.duplicate());
        assert forall|k: PackageKey|
            self.displayed().contains(k) == old(self).displayed().insert(package.key()).contains(
                k,
            ) by {
            if old(self).displayed().contains(k) {
                let i = choose|i: int| 0 <= i < old_pkgs.len() && old_pkgs[i].key() == k;
                assert(self.displayed_packages@[i].key() == k);
            }
            if self.displayed().contains(k) && k != package.key() {
                let i = choose|i: int|
                    0 <= i < self.displayed_packages@.len() && self.displayed_packages@[i].key()
                        == k;
                assert(i < old_pkgs.len());
                assert(old_pkgs[i].key() == k);
            }
            if k == package.key() {
                assert(self.displayed_packages@[old_pkgs.len() as int].key() == k);
            }
        }
        assert(self.displayed() =~= old(self).displayed().insert(package.key()));
        if !self.config.tree_enabled() {
            assert(lines_view(out@) =~= lines_view(before)
                + Seq::<LineView>::empty());
            return;
        }
        emit(out, Line::TreeHeader { severity });
        emit(out, Line::Tree { package: package.duplicate() });
        assert(lines_view(out@) =~= lines_view(before) + seq![
            LineView::TreeHeader { severity },
            LineView::Tree { package: package.key() },
        ]);
    }
    /// Writes one labelled attribute line.
    fn print_attr(&self, out: &mut Vec<Line>, severity: Severity, label: &str, content: &str)
        ensures
            lines_view(final(out)@) == lines_view(old(out)@).push(
                attr_line(severity, label@, content@),
            ),
    {
        emit(
            out,
            Line::Attr {
                severity,
                label: String::from_str(label),
                content: String::from_str(content),
            },
        );
    }

    /// Writes the URL line of an advisory, if it has a link.
    fn print_url(&self, out: &mut Vec<Line>, severity: Severity, advisory: &Advisory)
        ensures
            lines_view(final(out)@) == lines_view(old(out)@) + url_lines(severity, *advisory),
    {
        let ghost before = out@;
        match advisory_url(&advisory.id, &advisory.url) {
            Some(u) => {
                self.print_attr(out, severity, "URL:     ", u.as_str());
                assert(lines_view(out@) =~= lines_view(before) + url_lines(severity, *advisory));
            },
            None => {
                assert(lines_view(out@) =~= lines_view(before) + url_lines(severity, *advisory));
            },
        }
    }

    /// Writes the attributes of a vulnerability, then its tree where due.
    fn print_vulnerability(&mut self, vulnerability: &Vulnerability, out: &mut Vec<Line>)
        ensures
            final(self).displayed() == old(self).displayed().insert(vulnerability.package.key()),
            final(self).config() == old(self).config(),
            lines_view(final(out)@) == lines_view(old(out)@) + vulnerability_section(
                *vulnerability,
            ).attrs + tree_lines(
                old(self).config().shows_tree(),
                old(self).displayed(),
                Severity::Critical,
                vulnerability.package.key(),
            ),
    {
        let ghost before = lines_view(out@);
        let advisory = &vulnerability.advisory;
        let c = Severity::Critical;
        emit(out, Line::Blank);
        self.print_attr(out, c, "ID:      ", advisory.id.as_str());
        self.print_attr(out, c, "Crate:   ", vulnerability.package.name.as_str());
        self.print_attr(out, c, "Version: ", vulnerability.package.version.as_str());
        self.print_attr(out, c, "Date:    ", advisory.date.as_str());
        self.print_url(out, c, advisory);
        self.print_attr(out, c, "Title:   ", advisory.title.as_str());
        let solution = solution_text(&vulnerability.patched);
        self.print_attr(out, c, "Solution: upgrade to", solution.as_str());
        assert(lines_view(out@) =~= before + vulnerability_section(*vulnerability).attrs);
        self.print_tree(c, &vulnerability.package, out);
    }

    /// Writes the attributes of an informational warning, then its tree where
    /// due.
    fn print_warning(&mut self, warning: &Warning, out: &mut Vec<Line>)
        ensures
            final(self).displayed() == old(self).displayed().insert(warning.package.key()),
            final(self).config() == old(self).config(),
            lines_view(final(out)@) == lines_view(old(out)@) + warning_section(*warning).attrs
                + tree_lines(
                old(self).config().shows_tree(),
                old(self).displayed(),
                Severity::Informational,
                warning.package.key(),
            ),
    {
        let ghost before = lines_view(out@);
        let i = Severity::Informational;
        let c = Severity::Critical;
        emit(out, Line::Blank);
        self.print_attr(out, i, "Crate:   ", warning.package.name.as_str());
        self.print_attr(out, c, "Title: ", warning.advisory.title.as_str());
        self.print_attr(out, c, "Date:    ", warning.advisory.date.as_str());
        self.print_url(out, i, &warning.advisory);
        assert(lines_view(out@) =~= before + warning_section(*warning).attrs);
        self.print_tree(i, &warning.package, out);
    }
    /// The line announcing a scan, or none when the presenter is quiet.
    pub fn before_report(&mut self, lockfile_path: &str, package_count: usize) -> (r: Option<Line>)
        ensures
            *final(self) == *old(self),
            old(self).config().quiet ==> r is None,
            !old(self).config().quiet ==> r is Some && r->Some_0@ == scanning_line(
                lockfile_path@,
                package_count as nat,
            ),
    {
        if self.config.is_quiet() {
            return None;
        }
        let mut message = String::from_str(lockfile_path);
        message.append(" for vulnerabilities (");
        let n = decimal_string(package_count);
        message.append(n.as_str());
        message.append(" crate dependencies)");
        Some(Line::Success { label: String::from_str("Scanning"), message })
    }

    /// Writes each vulnerability in order, with its tree where due.
    fn print_vulnerabilities(&mut self, list: &Vec<Vulnerability>, out: &mut Vec<Line>)
        ensures
            final(self).displayed() == old(self).displayed() + section_keys(
                vulnerability_sections(list@),
            ),
            final(self).config() == old(self).config(),
            lines_view(final(out)@) == lines_view(old(out)@) + sections_lines(
                vulnerability_sections(list@),
                old(self).config().shows_tree(),
                old(self).displayed(),
            ),
    {
        let ghost seen0 = self.displayed();
        let ghost cfg = self.config;
        let ghost show = cfg.shows_tree();
        let ghost head = lines_view(out@);
        let ghost vs = vulnerability_sections(list@);
        assert(vs.take(0) =~= Seq::<Section>::empty());
        assert(section_keys(vs.take(0)) =~= Set::<PackageKey>::empty());
        assert(seen0 + section_keys(vs.take(0)) =~= seen0);
        assert(head + sections_lines(vs.take(0), show, seen0) =~= head);
        let mut i: usize = 0;
        while i < list.len()
            invariant
                i <= list@.len(),
                vs == vulnerability_sections(list@),
                vs.len() == list@.len(),
                self.config == cfg,
                show == cfg.shows_tree(),
                self.displayed() == seen0 + section_keys(vs.take(i as int)),
                lines_view(out@) == head + sections_lines(vs.take(i as int), show, seen0),
            decreases list@.len() - i,
        {
            self.print_vulnerability(&list[i], out);
            proof {
                let t = vs.take(i + 1);
                assert(t.drop_last() =~= vs.take(i as int));
                assert(t.last() == vulnerability_section(list@[i as int]));
                lemma_keys_push(vs.take(i as int), vs[i as int]);
                assert(vs.take(i as int).push(vs[i as int]) =~= t);
                assert(self.displayed() =~= seen0 + section_keys(t));
                assert(lines_view(out@) =~= head + sections_lines(t, show, seen0));
            }
            i = i + 1;
        }
        assert(vs.take(list@.len() as int) =~= vs);
    }

    /// Writes each warning in order, with its tree where due.
    fn print_warnings(&mut self, warnings: &Vec<Warning>, out: &mut Vec<Line>)
        ensures
            final(self).displayed() == old(self).displayed() + section_keys(
                warning_sections(warnings@),
            ),
            final(self).config() == old(self).config(),
            lines_view(final(out)@) == lines_view(old(out)@) + sections_lines(
                warning_sections(warnings@),
                old(self).config().shows_tree(),
                old(self).displayed(),
            ),
    {
        let ghost seen0 = self.displayed();
        let ghost cfg = self.config;
        let ghost show = cfg.shows_tree();
        let ghost head = lines_view(out@);
        let ghost ws = warning_sections(warnings@);
        assert(ws.take(0) =~= Seq::<Section>::empty());
        assert(section_keys(ws.take(0)) =~= Set::<PackageKey>::empty());
        assert(seen0 + section_keys(ws.take(0)) =~= seen0);
        assert(head + sections_lines(ws.take(0), show, seen0) =~= head);
        let mut j: usize = 0;
        while j < warnings.len()
            invariant
                j <= warnings@.len(),
                ws == warning_sections(warnings@),
                ws.len() == warnings@.len(),
                self.config == cfg,
                show == cfg.shows_tree(),
                self.displayed() == seen0 + section_keys(ws.take(j as int)),
                lines_view(out@) == head + sections_lines(ws.take(j as int), show, seen0),
            decreases warnings@.len() - j,
        {
            self.print_warning(&warnings[j], out);
            proof {
                let t = ws.take(j + 1);
                assert(t.drop_last() =~= ws.take(j as int));
                assert(t.last() == warning_section(warnings@[j as int]));
                lemma_keys_push(ws.take(j as int), ws[j as int]);
                assert(ws.take(j as int).push(ws[j as int]) =~= t);
                assert(self.displayed() =~= seen0 + section_keys(t));
                assert(lines_view(out@) =~= head + sections_lines(t, show, seen0));
            }
            j = j + 1;
        }
        assert(ws.take(warnings@.len() as int) =~= ws);
    }

    /// The output of a run over `report`: the serialised report in structured
    /// mode, else the status line, each finding in report order with the tree
    /// of its package the first time the package comes up, and the count.
    pub fn print_report(&mut self, report: &Report) -> (r: Vec<Line>)
        ensures
            lines_view(r@) == report_lines(old(self).config(), old(self).displayed(), *report),
            final(self).displayed() == seen_after(
                old(self).config(),
                old(self).displayed(),
                *report,
            ),
            final(self).config() == old(self).config(),
    {
        let mut out: Vec<Line> = Vec::new();
        if self.config.format == OutputFormat::Structured {
            emit(&mut out, Line::Structured);
            assert(lines_view(out@) =~= seq![LineView::Structured]);
            return out;
        }
        let ghost seen0 = self.displayed();
        let ghost show = self.config.shows_tree();
        if report.vulnerabilities.found {
            emit(&mut out, Line::Error { message: String::from_str("Vulnerable crates found!") });
        } else {
            emit(
                &mut out,
                Line::Success {
                    label: String::from_str("Success"),
                    message: String::from_str("No vulnerable packages found"),
                },
            );
        }
        emit(&mut out, Line::LoadTree);
        let ghost head = lines_view(out@);
        assert(head =~= seq![status_line(report.vulnerabilities.found), LineView::LoadTree]);
        self.print_vulnerabilities(&report.vulnerabilities.list, &mut out);
        let ghost mid = lines_view(out@);
        let ghost seen1 = self.displayed();
        let ghost ws = warning_sections(report.warnings@);
        if report.warnings.len() > 0 {
            emit(&mut out, Line::Blank);
            emit(
                &mut out,
                Line::Warn {
                    message: String::from_str("found informational advisories for dependencies"),
                },
            );
            assert(lines_view(out@) =~= mid + warnings_heading());
            self.print_warnings(&report.warnings, &mut out);
            assert(lines_view(out@) =~= mid + (warnings_heading() + sections_lines(
                ws,
                show,
                seen1,
            )));
        } else {
            assert(section_keys(ws) =~= Set::<PackageKey>::empty());
            assert(self.displayed() =~= seen1 + section_keys(ws));
            assert(lines_view(out@) =~= mid + Seq::<LineView>::empty());
        }
        let ghost mid2 = lines_view(out@);
        if report.vulnerabilities.found {
            emit(&mut out, Line::Blank);
            emit(&mut out, Line::Error { message: count_message(report.vulnerabilities.count) });
            assert(lines_view(out@) =~= mid2 + seq![
                LineView::Blank,
                LineView::Error { message: count_text(report.vulnerabilities.count as nat) },
            ]);
        } else {
            assert(lines_view(out@) =~= mid2 + Seq::<LineView>::empty());
        }
        assert(lines_view(out@) =~= human_lines(show, seen0, *report));
        out
    }
}

} // verus!
