//! The exporter's text: a fixed two-column header and one comma-joined
//! row per chart-frame point, in frame order. Turning a point's numbers
//! into decimal text involves the payload interpretation and so happens
//! outside this crate; here the already-formatted fields are laid out
//! into lines, and the layout is what is proved. Writing the lines to
//! the output file is the file writer's business, outside this crate.

use vstd::prelude::*;

verus! {

/// The header row of the exported file.
pub open spec fn header_text() -> Seq<char> {
    "Time(s),Pressure(Pa)"@
}

/// A data row: the two fields joined by a comma.
pub open spec fn row_text(t: Seq<char>, v: Seq<char>) -> Seq<char> {
    t + ","@ + v
}

/// The header line, `Time(s),Pressure(Pa)`.
pub fn header_line() -> (h: String)
    ensures
        h@ == header_text(),
{
    String::from_str("Time(s),Pressure(Pa)")
}

/// One data row from its two formatted fields.
pub fn row_line(t: &str, v: &str) -> (line: String)
    ensures
        line@ == row_text(t@, v@),
{
    let mut line = t.to_owned();
    line.append(",");
    line.append(v);
    line
}

/// The whole exported document as lines: the header, then one row per
/// point, in order. An empty frame gives a header-only document, never
/// an error.
pub fn csv_lines(rows: &Vec<(String, String)>) -> (out: Vec<String>)
    ensures
        out@.len() == rows@.len() + 1,
        out@[0]@ == header_text(),
        forall|i: int| 0 <= i < rows@.len() ==> out@[i + 1]@ == row_text(
            rows@[i].0@,
            rows@[i].1@,
        ),
{
    let mut out: Vec<String> = Vec::new();
    out.push(header_line());
    let n: usize = rows.len();
    let mut i: usize = 0;
    while i < n
        invariant
            n == rows@.len(),
            i <= n,
            out@.len() == i + 1,
            out@[0]@ == header_text(),
            forall|k: int| 0 <= k < i ==> out@[k + 1]@ == row_text(rows@[k].0@, rows@[k].1@),
        decreases n - i,
    {
        let line = row_line(rows[i].0.as_str(), rows[i].1.as_str());
        out.push(line);
        i = i + 1;
    }
    out
}

} // verus!
