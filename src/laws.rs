//! Properties of a presentation run, proved over the line model that
//! `Presenter::print_report` is specified by.

use crate::config::{OutputConfig, OutputFormat};
use crate::output::{is_drawing, LineView, Severity};
use crate::presenter::{
    report_lines, section_keys, sections_lines, seen_after, status_line, tree_lines,
    vulnerability_section, vulnerability_sections, warning_section, warning_sections,
    warnings_heading, Section,
};
use crate::report::{PackageKey, Report, Vulnerability, Warning};
use crate::text::count_text;
use vstd::prelude::*;

verus! {

/// How many times the tree of `p` is drawn in `lines`.
pub open spec fn tree_count(lines: Seq<LineView>, p: PackageKey) -> nat
    decreases lines.len(),
{
    if lines.len() == 0 {
        0
    } else {
        tree_count(lines.drop_last(), p) + if lines.last() == (LineView::Tree { package: p }) {
            1nat
        } else {
            0nat
        }
    }
}

/// No line of `lines` belongs to a tree drawing.
pub open spec fn no_drawing(lines: Seq<LineView>) -> bool {
    forall|i: int| 0 <= i < lines.len() ==> !is_drawing(#[trigger] lines[i])
}

/// `lines` without the lines of tree drawings.
pub open spec fn without_drawings(lines: Seq<LineView>) -> Seq<LineView>
    decreases lines.len(),
{
    if lines.len() == 0 {
        Seq::empty()
    } else {
        without_drawings(lines.drop_last()) + if is_drawing(lines.last()) {
            Seq::<LineView>::empty()
        } else {
            seq![lines.last()]
        }
    }
}

proof fn lemma_count_add(a: Seq<LineView>, b: Seq<LineView>, p: PackageKey)
    ensures
        tree_count(a + b, p) == tree_count(a, p) + tree_count(b, p),
    decreases b.len(),
{
    if b.len() == 0 {
        assert(a + b =~= a);
    } else {
        assert((a + b).drop_last() =~= a + b.drop_last());
        lemma_count_add(a, b.drop_last(), p);
    }
}

proof fn lemma_count_undrawn(s: Seq<LineView>, p: PackageKey)
    requires
        no_drawing(s),
    ensures
        tree_count(s, p) == 0,
    decreases s.len(),
{
    if s.len() > 0 {
        assert(!is_drawing(s[s.len() - 1]));
        assert(no_drawing(s.drop_last()));
        lemma_count_undrawn(s.drop_last(), p);
    }
}

proof fn lemma_strip_add(a: Seq<LineView>, b: Seq<LineView>)
    ensures
        without_drawings(a + b) == without_drawings(a) + without_drawings(b),
    decreases b.len(),
{
    if b.len() == 0 {
        assert(a + b =~= a);
        assert(without_drawings(a) + without_drawings(b) =~= without_drawings(a));
    } else {
        assert((a + b).drop_last() =~= a + b.drop_last());
        lemma_strip_add(a, b.drop_last());
        assert(without_drawings(a + b) =~= without_drawings(a) + without_drawings(b));
    }
}

proof fn lemma_strip_undrawn(s: Seq<LineView>)
    requires
        no_drawing(s),
    ensures
        without_drawings(s) == s,
    decreases s.len(),
{
    if s.len() > 0 {
        assert(!is_drawing(s[s.len() - 1]));
        assert(no_drawing(s.drop_last()));
        lemma_strip_undrawn(s.drop_last());
        assert(s.drop_last().push(s.last()) =~= s);
    }
}

proof fn lemma_strip_clean(s: Seq<LineView>)
    ensures
        no_drawing(without_drawings(s)),
    decreases s.len(),
{
    if s.len() > 0 {
        lemma_strip_clean(s.drop_last());
    }
}

proof fn lemma_vulnerability_attrs(v: Vulnerability)
    ensures
        no_drawing(vulnerability_section(v).attrs),
{
}

proof fn lemma_warning_attrs(w: Warning)
    ensures
        no_drawing(warning_section(w).attrs),
{
}

/// Every section's own lines are free of tree drawings.
pub open spec fn attrs_undrawn(ss: Seq<Section>) -> bool {
    forall|i: int| 0 <= i < ss.len() ==> no_drawing(#[trigger] ss[i].attrs)
}

proof fn lemma_findings_undrawn(report: Report)
    ensures
        attrs_undrawn(vulnerability_sections(report.vulnerabilities.list@)),
        attrs_undrawn(warning_sections(report.warnings@)),
{
    let vs = vulnerability_sections(report.vulnerabilities.list@);
    let ws = warning_sections(report.warnings@);
    assert forall|i: int| 0 <= i < vs.len() implies no_drawing(#[trigger] vs[i].attrs) by {
        lemma_vulnerability_attrs(report.vulnerabilities.list@[i]);
    }
    assert forall|i: int| 0 <= i < ws.len() implies no_drawing(#[trigger] ws[i].attrs) by {
        lemma_warning_attrs(report.warnings@[i]);
    }
}

proof fn lemma_tree_lines(
    show_tree: bool,
    seen: Set<PackageKey>,
    severity: Severity,
    package: PackageKey,
    p: PackageKey,
)
    ensures
        tree_count(tree_lines(show_tree, seen, severity, package), p) == if tree_lines(
            show_tree,
            seen,
            severity,
            package,
        ).len() > 0 && package == p {
            1nat
        } else {
            0nat
        },
        without_drawings(tree_lines(show_tree, seen, severity, package)) == Seq::<
            LineView,
        >::empty(),
{
    let tl = tree_lines(show_tree, seen, severity, package);
    if tl.len() > 0 {
        let a = seq![LineView::TreeHeader { severity }];
        assert(tl.drop_last() =~= a);
        assert(a.drop_last() =~= Seq::<LineView>::empty());
        assert(tree_count(Seq::<LineView>::empty(), p) == 0);
        assert(without_drawings(Seq::<LineView>::empty()) == Seq::<LineView>::empty());
        assert(a.last() == LineView::TreeHeader { severity });
        assert(is_drawing(a.last()));
        assert(tree_count(a, p) == 0);
        assert(without_drawings(a) =~= Seq::<LineView>::empty());
        assert(without_drawings(tl) =~= Seq::<LineView>::empty());
    } else {
        assert(without_drawings(tl) =~= Seq::<LineView>::empty());
    }
}

proof fn lemma_sections_count(ss: Seq<Section>, seen: Set<PackageKey>, p: PackageKey)
    requires
        attrs_undrawn(ss),
    ensures
        tree_count(sections_lines(ss, true, seen), p) == if section_keys(ss).contains(p)
            && !seen.contains(p) {
            1nat
        } else {
            0nat
        },
    decreases ss.len(),
{
    if ss.len() == 0 {
        assert(!section_keys(ss).contains(p));
    } else {
        let init = ss.drop_last();
        let last = ss.last();
        assert(attrs_undrawn(init)) by {
            assert forall|i: int| 0 <= i < init.len() implies no_drawing(#[trigger] init[i].attrs) by {
                assert(init[i] == ss[i]);
            }
        }
        assert(no_drawing(ss[ss.len() - 1].attrs));
        lemma_sections_count(init, seen, p);
        let tl = tree_lines(true, seen + section_keys(init), last.severity, last.package);
        lemma_count_add(sections_lines(init, true, seen), last.attrs, p);
        lemma_count_add(sections_lines(init, true, seen) + last.attrs, tl, p);
        lemma_count_undrawn(last.attrs, p);
        lemma_tree_lines(true, seen + section_keys(init), last.severity, last.package, p);
        assert(init.push(last) =~= ss);
        assert(section_keys(ss).contains(p) == (section_keys(init).contains(p) || last.package
            == p)) by {
            if section_keys(ss).contains(p) {
                let i = choose|i: int| 0 <= i < ss.len() && ss[i].package == p;
                if i < init.len() {
                    assert(init[i].package == p);
                }
            }
            if section_keys(init).contains(p) {
                let i = choose|i: int| 0 <= i < init.len() && init[i].package == p;
                assert(ss[i].package == p);
            }
            if last.package == p {
                assert(ss[ss.len() - 1].package == p);
            }
        }
    }
}

proof fn lemma_sections_strip(ss: Seq<Section>, seen: Set<PackageKey>, seen2: Set<PackageKey>)
    requires
        attrs_undrawn(ss),
    ensures
        without_drawings(sections_lines(ss, true, seen)) == sections_lines(ss, false, seen2),
    decreases ss.len(),
{
    if ss.len() > 0 {
        let init = ss.drop_last();
        let last = ss.last();
        assert(attrs_undrawn(init)) by {
            assert forall|i: int| 0 <= i < init.len() implies no_drawing(#[trigger] init[i].attrs) by {
                assert(init[i] == ss[i]);
            }
        }
        assert(no_drawing(ss[ss.len() - 1].attrs));
        lemma_sections_strip(init, seen, seen2);
        let tl = tree_lines(true, seen + section_keys(init), last.severity, last.package);
        lemma_strip_add(sections_lines(init, true, seen), last.attrs);
        lemma_strip_add(sections_lines(init, true, seen) + last.attrs, tl);
        lemma_strip_undrawn(last.attrs);
        lemma_tree_lines(true, seen + section_keys(init), last.severity, last.package, last.package);
        assert(without_drawings(sections_lines(ss, true, seen)) =~= sections_lines(
            ss,
            false,
            seen2,
        ));
    }
}

/// In a human-readable run with trees on, over a fresh presenter, the tree of
/// a package is drawn exactly once if some finding (vulnerability or warning)
/// concerns it, however many do, and never otherwise.
pub proof fn tree_drawn_once_per_package(config: OutputConfig, report: Report, p: PackageKey)
    requires
        config.format == OutputFormat::Human,
        config.shows_tree(),
    ensures
        tree_count(report_lines(config, Set::empty(), report), p) == if seen_after(
            config,
            Set::empty(),
            report,
        ).contains(p) {
            1nat
        } else {
            0nat
        },
{
    let seen = Set::<PackageKey>::empty();
    let vs = vulnerability_sections(report.vulnerabilities.list@);
    let ws = warning_sections(report.warnings@);
    lemma_findings_undrawn(report);
    let head = seq![status_line(report.vulnerabilities.found), LineView::LoadTree];
    let body_v = sections_lines(vs, true, seen);
    let body_w = if ws.len() > 0 {
        warnings_heading() + sections_lines(ws, true, seen + section_keys(vs))
    } else {
        Seq::empty()
    };
    let tail = if report.vulnerabilities.found {
        seq![
            LineView::Blank,
            LineView::Error { message: count_text(report.vulnerabilities.count as nat) },
        ]
    } else {
        Seq::empty()
    };
    assert(report_lines(config, seen, report) == head + body_v + body_w + tail);
    lemma_count_add(head + body_v + body_w, tail, p);
    lemma_count_add(head + body_v, body_w, p);
    lemma_count_add(head, body_v, p);
    lemma_count_undrawn(head, p);
    lemma_count_undrawn(tail, p);
    lemma_sections_count(vs, seen, p);
    if ws.len() > 0 {
        lemma_count_add(warnings_heading(), sections_lines(ws, true, seen + section_keys(vs)), p);
        lemma_count_undrawn(warnings_heading(), p);
        lemma_sections_count(ws, seen + section_keys(vs), p);
    } else {
        assert(!section_keys(ws).contains(p));
    }
}

/// With trees off, no line of a tree drawing is written; every other line is
/// written exactly as with trees on, in the same order.
pub proof fn trees_off_keeps_other_lines(
    off: OutputConfig,
    on: OutputConfig,
    seen_off: Set<PackageKey>,
    seen_on: Set<PackageKey>,
    report: Report,
)
    requires
        off.format == on.format,
        !off.shows_tree(),
        on.shows_tree(),
    ensures
        no_drawing(report_lines(off, seen_off, report)),
        report_lines(off, seen_off, report) == without_drawings(
            report_lines(on, seen_on, report),
        ),
{
    if on.format == OutputFormat::Structured {
        let s = seq![LineView::Structured];
        assert(no_drawing(s));
        lemma_strip_undrawn(s);
    } else {
        let vs = vulnerability_sections(report.vulnerabilities.list@);
        let ws = warning_sections(report.warnings@);
        lemma_findings_undrawn(report);
        let head = seq![status_line(report.vulnerabilities.found), LineView::LoadTree];
        let tail = if report.vulnerabilities.found {
            seq![
                LineView::Blank,
                LineView::Error {
                    message: count_text(report.vulnerabilities.count as nat),
                },
            ]
        } else {
            Seq::empty()
        };
        let heading = warnings_heading();
        assert(no_drawing(head));
        assert(no_drawing(tail));
        assert(no_drawing(heading));
        lemma_strip_undrawn(head);
        lemma_strip_undrawn(tail);
        lemma_strip_undrawn(heading);
        lemma_sections_strip(vs, seen_on, seen_off);
        let on_v = sections_lines(vs, true, seen_on);
        let off_v = sections_lines(vs, false, seen_off);
        let on_w = if ws.len() > 0 {
            heading + sections_lines(ws, true, seen_on + section_keys(vs))
        } else {
            Seq::empty()
        };
        let off_w = if ws.len() > 0 {
            heading + sections_lines(ws, false, seen_off + section_keys(vs))
        } else {
            Seq::empty()
        };
        if ws.len() > 0 {
            lemma_sections_strip(ws, seen_on + section_keys(vs), seen_off + section_keys(vs));
            lemma_strip_add(heading, sections_lines(ws, true, seen_on + section_keys(vs)));
        }
        assert(without_drawings(on_w) == off_w);
        assert(report_lines(on, seen_on, report) == head + on_v + on_w + tail);
        assert(report_lines(off, seen_off, report) == head + off_v + off_w + tail);
        lemma_strip_add(head + on_v + on_w, tail);
        lemma_strip_add(head + on_v, on_w);
        lemma_strip_add(head, on_v);
        lemma_strip_clean(report_lines(on, seen_on, report));
    }
}

/// A structured run writes the serialised report and nothing else, and leaves
/// the displayed packages as they were, whatever the tree setting.
pub proof fn structured_run_skips_trees(config: OutputConfig, seen: Set<PackageKey>, report: Report)
    requires
        config.format == OutputFormat::Structured,
    ensures
        report_lines(config, seen, report) == seq![LineView::Structured],
        seen_after(config, seen, report) == seen,
{
}

/// A human-readable run over a report with no vulnerability and no warning
/// writes the success line alone; loading the tree, which follows it, writes
/// nothing.
pub proof fn clean_report_prints_success_only(
    config: OutputConfig,
    seen: Set<PackageKey>,
    report: Report,
)
    requires
        config.format == OutputFormat::Human,
        report.well_formed(),
        !report.vulnerabilities.found,
        report.warnings@.len() == 0,
    ensures
        report_lines(config, seen, report) == seq![
            LineView::Success { label: "Success"@, message: "No vulnerable packages found"@ },
            LineView::LoadTree,
        ],
{
    let vs = vulnerability_sections(report.vulnerabilities.list@);
    assert(vs.len() == 0);
    assert(sections_lines(vs, config.shows_tree(), seen) =~= Seq::<LineView>::empty());
    assert(report_lines(config, seen, report) =~= seq![
        LineView::Success { label: "Success"@, message: "No vulnerable packages found"@ },
        LineView::LoadTree,
    ]);
}

} // verus!
