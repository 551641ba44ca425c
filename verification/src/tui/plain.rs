//! The report as plain text, for output that is not a terminal: the plain form of
//! the report's lines, one per text line.

use vstd::prelude::*;
use crate::app::session::InvestigationSession;
use crate::snapshot::InvestigationSnapshot;
use crate::report::sections::FactualSections;
use crate::tui::section::{Line, LineV, line_view, lines_view, line_text};
use crate::tui::report::{report_lines, report_spec};

verus! {

/// The lines' texts, each followed by a newline.
pub open spec fn joined(ls: Seq<LineV>) -> Seq<char>
    decreases ls.len(),
{
    if ls.len() == 0 {
        seq![]
    } else {
        joined(ls.drop_last()) + line_text(ls.last()) + seq!['\n']
    }
}

fn append_line(out: &mut String, l: &Line)
    ensures
        final(out)@ == old(out)@ + line_text(line_view(*l)) + seq!['\n'],
{
    let ghost start = out@;
    let mut i: usize = 0;
    while i < l.spans.len()
        invariant
            i <= l.spans@.len(),
            out@ == start + line_text(line_view(*l).subrange(0, i as int)),
        decreases l.spans.len() - i,
    {
        out.append(l.spans[i].content.as_str());
        proof {
            assert(line_view(*l).subrange(0, i + 1).drop_last() =~= line_view(*l).subrange(0, i as int));
        }
        i = i + 1;
    }
    proof {
        assert(line_view(*l).subrange(0, l.spans@.len() as int) =~= line_view(*l));
    }
    out.push('\n');
}

/// The plain report: the header and nine sections as text, one line each.
pub fn plain_report(session: &InvestigationSession, snapshot: &InvestigationSnapshot, sections: &FactualSections,
    now_secs: i64) -> (text: String)
    requires
        sections.first_impressions.last_activity_secs matches Some(t) ==> i64::MIN <= now_secs - t <= i64::MAX,
    ensures
        text@ == joined(report_spec(*session, *snapshot, *sections, now_secs, true)),
{
    let lines = report_lines(session, snapshot, sections, now_secs, true);
    let ghost all = lines_view(lines@);
    let mut out = String::new();
    let mut i: usize = 0;
    while i < lines.len()
        invariant
            i <= lines@.len(),
            all == lines_view(lines@),
            out@ == joined(all.subrange(0, i as int)),
        decreases lines.len() - i,
    {
        append_line(&mut out, &lines[i]);
        proof {
            assert(all.subrange(0, i + 1).drop_last() =~= all.subrange(0, i as int));
        }
        i = i + 1;
    }
    proof {
        assert(all.subrange(0, lines@.len() as int) =~= all);
    }
    out
}

} // verus!
