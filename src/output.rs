//! The lines a presentation run writes, in order.

use crate::report::{PackageId, PackageKey};
use vstd::prelude::*;

verus! {

/// How prominently a line is shown; each level has one display colour.
#[derive(Clone, Copy, Debug, PartialEq, Eq, Structural)]
pub enum Severity {
    /// Shown in red.
    Critical,
    /// Shown in yellow.
    Informational,
}

/// One step of output.
#[derive(Clone, Debug, PartialEq, Eq)]
pub enum Line {
    /// A successful status line: a label such as `Success` and a message.
    Success { label: String, message: String },
    /// A warning status line.
    Warn { message: String },
    /// An error status line.
    Error { message: String },
    /// An empty separator line.
    Blank,
    /// A bold, coloured label followed by its content.
    Attr { severity: Severity, label: String, content: String },
    /// Obtain the dependency tree from the lockfile; this writes nothing, and
    /// stops the run if the lockfile's dependency data is inconsistent.
    LoadTree,
    /// The bold, coloured `Dependency tree:` heading.
    TreeHeader { severity: Severity },
    /// The inverse dependency tree of a package: everything that depends on it.
    Tree { package: PackageId },
    /// The whole report, serialised as it was received.
    Structured,
}

/// What a [`Line`] says, over sequences of characters.
pub enum LineView {
    Success { label: Seq<char>, message: Seq<char> },
    Warn { message: Seq<char> },
    Error { message: Seq<char> },
    Blank,
    Attr { severity: Severity, label: Seq<char>, content: Seq<char> },
    LoadTree,
    TreeHeader { severity: Severity },
    Tree { package: PackageKey },
    Structured,
}

impl View for Line {
    type V = LineView;

    open spec fn view(&self) -> LineView {
        match self {
            Line::Success { label, message } => LineView::Success { label: label@, message: message@ },
            Line::Warn { message } => LineView::Warn { message: message@ },
            Line::Error { message } => LineView::Error { message: message@ },
            Line::Blank => LineView::Blank,
            Line::Attr { severity, label, content } => LineView::Attr {
                severity: *severity,
                label: label@,
                content: content@,
            },
            Line::LoadTree => LineView::LoadTree,
            Line::TreeHeader { severity } => LineView::TreeHeader { severity: *severity },
            Line::Tree { package } => LineView::Tree { package: package.key() },
            Line::Structured => LineView::Structured,
        }
    }
}

/// The views of a sequence of lines.
pub open spec fn lines_view(lines: Seq<Line>) -> Seq<LineView> {
    lines.map_values(|l: Line| l@)
}

/// Whether a line belongs to a dependency-tree drawing.
pub open spec fn is_drawing(l: LineView) -> bool {
    l is TreeHeader || l is Tree
}

/// Appends `line` to `out`.
pub fn emit(out: &mut Vec<Line>, line: Line)
    ensures
        lines_view(final(out)@) == lines_view(old(out)@).push(line@),
{
    let ghost before = out@;
    out.push(line);
    assert(lines_view(out@) =~= lines_view(before).push(line@));
}

} // verus!
