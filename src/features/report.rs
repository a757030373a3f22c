//! The text report of a finished scan and the name of the file it goes to.

use vstd::prelude::*;
use crate::clock::local_time_text;
use crate::features::scanner::{PortInfo, PortInfoView, PortState, infos_view};
use crate::text::{
    append_chars, append_str, chars_of, decimal, decimal_chars, pad_left, pad_left_chars,
    pad_right, pad_right_chars, string_of,
};

verus! {

/// `s` with every `.` replaced by `_`.
pub open spec fn dots_to_underscores(s: Seq<char>) -> Seq<char> {
    Seq::new(s.len(), |i: int| if s[i] == '.' { '_' } else { s[i] })
}

/// `scan_<target with dots replaced>_<stamp>.txt`.
pub open spec fn report_file_name(target: Seq<char>, stamp: Seq<char>) -> Seq<char> {
    "scan_"@ + dots_to_underscores(target) + "_"@ + stamp + ".txt"@
}

/// One result line: port and state left-aligned in eight columns, then the
/// service name or `unknown`.
pub open spec fn report_line(p: PortInfoView) -> Seq<char> {
    let service = match p.service {
        Some(s) => s,
        None => "unknown"@,
    };
    pad_right(decimal(p.port as nat), 8) + " "@ + pad_right("open"@, 8) + " "@ + service + "\n"@
}

pub open spec fn report_lines(rs: Seq<PortInfoView>) -> Seq<char>
    decreases rs.len(),
{
    if rs.len() == 0 {
        Seq::empty()
    } else {
        report_lines(rs.drop_last()) + report_line(rs.last())
    }
}

/// The whole report for `target`, scanned at `scan_time`.
pub open spec fn report_text(target: Seq<char>, scan_time: Seq<char>, rs: Seq<PortInfoView>) -> Seq<
    char,
> {
    "Port Scan Results\n"@ + "==================\n"@ + "Target: "@ + target + "\n"@
        + "Scan Time: "@ + scan_time + "\n"@ + "Open Ports: "@ + decimal(rs.len()) + "\n\n"@ + if rs.len()
        == 0 {
        "No open ports found.\n"@
    } else {
        "PORT     STATE    SERVICE\n"@ + "----     -----    -------\n"@ + report_lines(rs)
    }
}

/// The file name for a report on `target` written at `stamp`.
pub fn report_file_name_for(target: &str, stamp: &str) -> (r: String)
    ensures
        r@ == report_file_name(target@, stamp@),
{
    let t = chars_of(target);
    let mut out: Vec<char> = Vec::new();
    append_str(&mut out, "scan_");
    let ghost head = out@;
    let mut i: usize = 0;
    while i < t.len()
        invariant
            i <= t@.len(),
            t@ == target@,
            out@ == head + dots_to_underscores(t@).subrange(0, i as int),
        decreases t.len() - i,
    {
        let c = t[i];
        out.push(if c == '.' { '_' } else { c });
        assert(out@ =~= head + dots_to_underscores(t@).subrange(0, i + 1));
        i = i + 1;
    }
    assert(dots_to_underscores(t@).subrange(0, t@.len() as int) =~= dots_to_underscores(t@));
    append_str(&mut out, "_");
    append_str(&mut out, stamp);
    append_str(&mut out, ".txt");
    string_of(&out)
}

fn report_line_chars(p: &PortInfo) -> (r: Vec<char>)
    ensures
        r@ == report_line(p@),
{
    let num = decimal_chars(p.port as usize);
    let mut out = pad_right_chars(&num, 8);
    append_str(&mut out, " ");
    let open = chars_of("open");
    let open_padded = pad_right_chars(&open, 8);
    append_chars(&mut out, &open_padded);
    append_str(&mut out, " ");
    match &p.service {
        Some(s) => append_str(&mut out, s.as_str()),
        None => append_str(&mut out, "unknown"),
    }
    append_str(&mut out, "\n");
    out
}

/// The report text for `results` on `target`, scanned at `scan_time`.
pub fn report_text_for(target: &str, scan_time: &str, results: &Vec<PortInfo>) -> (r: String)
    ensures
        r@ == report_text(target@, scan_time@, infos_view(results@)),
{
    let ghost rs = infos_view(results@);
    let mut out: Vec<char> = Vec::new();
    append_str(&mut out, "Port Scan Results\n");
    append_str(&mut out, "==================\n");
    append_str(&mut out, "Target: ");
    append_str(&mut out, target);
    append_str(&mut out, "\n");
    append_str(&mut out, "Scan Time: ");
    append_str(&mut out, scan_time);
    append_str(&mut out, "\n");
    append_str(&mut out, "Open Ports: ");
    let count = decimal_chars(results.len());
    append_chars(&mut out, &count);
    append_str(&mut out, "\n\n");
    if results.len() == 0 {
        append_str(&mut out, "No open ports found.\n");
    } else {
        append_str(&mut out, "PORT     STATE    SERVICE\n");
        append_str(&mut out, "----     -----    -------\n");
        let ghost head = out@;
        let mut i: usize = 0;
        assert(rs.subrange(0, 0) =~= Seq::<PortInfoView>::empty());
        while i < results.len()
            invariant
                i <= results@.len(),
                rs == infos_view(results@),
                out@ == head + report_lines(rs.subrange(0, i as int)),
            decreases results.len() - i,
        {
            let line = report_line_chars(&results[i]);
            append_chars(&mut out, &line);
            assert(rs.subrange(0, i + 1).drop_last() =~= rs.subrange(0, i as int));
            assert(out@ =~= head + report_lines(rs.subrange(0, i + 1)));
            i = i + 1;
        }
        assert(rs.subrange(0, results@.len() as int) =~= rs);
    }
    let r = string_of(&out);
    assert(r@ =~= report_text(target@, scan_time@, rs));
    r
}

/// A report ready to be written: its file name and its text.
pub struct ScanReport {
    pub file_name: String,
    pub body: String,
}

/// The report of a scan of `target`, stamped with the local time now. The
/// time is the clock's; everything else follows from the arguments.
pub fn scan_report(target: &str, results: &Vec<PortInfo>) -> (r: ScanReport)
    ensures
        exists|stamp: Seq<char>| r.file_name@ == report_file_name(target@, stamp),
        exists|scan_time: Seq<char>|
            r.body@ == report_text(target@, scan_time, infos_view(results@)),
{
    proof {
        reveal_strlit("%Y%m%d_%H%M%S");
        reveal_strlit("%Y-%m-%d %H:%M:%S");
    }
    let stamp = local_time_text("%Y%m%d_%H%M%S");
    let scan_time = local_time_text("%Y-%m-%d %H:%M:%S");
    let file_name = report_file_name_for(target, stamp.as_str());
    let body = report_text_for(target, scan_time.as_str(), results);
    ScanReport { file_name, body }
}

/// The label of a port state in the results list.
pub open spec fn state_label(s: PortState) -> Seq<char> {
    match s {
        PortState::Open => "OPEN"@,
        PortState::Closed => "CLOSED"@,
        PortState::Filtered => "FILTERED"@,
    }
}

/// One row of the results list: `Port`, the number right-aligned in five
/// columns, the state left-aligned in eight, and the service or `unknown`.
pub open spec fn result_row(p: PortInfoView) -> Seq<char> {
    let service = match p.service {
        Some(s) => s,
        None => "unknown"@,
    };
    "Port "@ + pad_left(decimal(p.port as nat), 5) + " | "@ + pad_right(state_label(p.state), 8)
        + " | "@ + service
}

fn result_row_text(p: &PortInfo) -> (r: String)
    ensures
        r@ == result_row(p@),
{
    let mut out = chars_of("Port ");
    let num = decimal_chars(p.port as usize);
    let num = pad_left_chars(&num, 5);
    append_chars(&mut out, &num);
    append_str(&mut out, " | ");
    let label = match p.state {
        PortState::Open => chars_of("OPEN"),
        PortState::Closed => chars_of("CLOSED"),
        PortState::Filtered => chars_of("FILTERED"),
    };
    let label = pad_right_chars(&label, 8);
    append_chars(&mut out, &label);
    append_str(&mut out, " | ");
    match &p.service {
        Some(s) => append_str(&mut out, s.as_str()),
        None => append_str(&mut out, "unknown"),
    }
    string_of(&out)
}

/// The rows shown for the results, one per port, in the results' order.
pub fn result_rows(results: &Vec<PortInfo>) -> (r: Vec<String>)
    ensures
        r@.len() == results@.len(),
        forall|i: int| 0 <= i < r@.len() ==> (#[trigger] r@[i])@ == result_row(results@[i]@),
{
    let mut rows: Vec<String> = Vec::new();
    let mut i: usize = 0;
    while i < results.len()
        invariant
            i <= results@.len(),
            rows@.len() == i,
            forall|k: int| 0 <= k < i ==> (#[trigger] rows@[k])@ == result_row(results@[k]@),
        decreases results.len() - i,
    {
        rows.push(result_row_text(&results[i]));
        i = i + 1;
    }
    rows
}

} // verus!
