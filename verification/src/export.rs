//! Row selection and export semantics.
//!
//! `selected` says which rows of the telemetry table a request exports:
//! rows that passed their integrity check, whose id the decimation
//! factor divides, and whose timestamp falls on a day between the start
//! and stop dates inclusive. `export_lines` is the whole export as a
//! mathematical function of the table and the request; `render_row` and
//! `export_rows` are its executable forms — one row at a time for
//! streaming, or a whole table at once.

use vstd::prelude::*;
use vstd::seq_lib::group_filter_ensures;
use crate::dates::Timestamp;
use crate::render::csv_line_text;
use crate::render::render_line;
use crate::validate::ExportRequest;

verus! {

/// One decoded row of the telemetry table: surrogate id, timestamp,
/// integrity flag, and the requested column's value — already rendered
/// as decimal text, or `None` where the column was null.
pub struct TelemetryRow {
    pub id: u64,
    pub served_at: Timestamp,
    pub integrity_failed: bool,
    pub value: Option<String>,
}

impl TelemetryRow {
    /// The measurement text, as the CSV renderer sees it.
    pub open spec fn value_text(self) -> Option<Seq<char>> {
        match self.value {
            Some(v) => Some(v@),
            None => None,
        }
    }

    /// The CSV line this row renders to.
    pub open spec fn line_text(self) -> Seq<char> {
        csv_line_text(self.served_at, self.value_text())
    }
}

/// Whether a request exports a row: the row passed its integrity check,
/// its timestamp decodes to a real instant, its id is divisible by the
/// decimation factor, and its day lies in the request's date range.
pub open spec fn selected(row: TelemetryRow, req: ExportRequest) -> bool {
    &&& !row.integrity_failed
    &&& row.served_at.valid()
    &&& row.id as int % req.decimation as int == 0
    &&& req.start.le_spec(row.served_at.date_spec())
    &&& row.served_at.date_spec().le_spec(req.stop)
}

/// The rows a request exports, in table order.
pub open spec fn selected_rows(rows: Seq<TelemetryRow>, req: ExportRequest) -> Seq<TelemetryRow> {
    rows.filter(|r: TelemetryRow| selected(r, req))
}

/// The whole export: one CSV line per selected row, in table order.
pub open spec fn export_lines(rows: Seq<TelemetryRow>, req: ExportRequest) -> Seq<Seq<char>> {
    selected_rows(rows, req).map_values(|r: TelemetryRow| r.line_text())
}

/// Decide and render one fetched row: its CSV line if the request
/// selects it, nothing if it is to be skipped. This is the whole
/// per-row step of the streaming pipeline.
pub fn render_row(row: &TelemetryRow, req: &ExportRequest) -> (r: Option<String>)
    requires
        req.wf(),
    ensures
        r is Some <==> selected(*row, *req),
        match r {
            Some(line) => line@ == row.line_text(),
            None => true,
        },
{
    if row.integrity_failed {
        return None;
    }
    if !row.served_at.check_valid() {
        return None;
    }
    if row.id % (req.decimation as u64) != 0 {
        return None;
    }
    let day = row.served_at.date();
    if !req.start.le(&day) {
        return None;
    }
    if !day.le(&req.stop) {
        return None;
    }
    Some(render_line(&row.served_at, row.value.as_ref()))
}

/// Export a whole table at once: exactly the lines of `export_lines`,
/// in order.
pub fn export_rows(rows: &Vec<TelemetryRow>, req: &ExportRequest) -> (out: Vec<String>)
    requires
        req.wf(),
    ensures
        out.deep_view() == export_lines(rows@, *req),
{
    let mut out: Vec<String> = Vec::new();
    let mut i: usize = 0;
    proof {
        reveal(Seq::filter);
        assert(rows@.take(0).len() == 0);
        assert(out.deep_view() =~= export_lines(rows@.take(0), *req));
    }
    while i < rows.len()
        invariant
            req.wf(),
            i <= rows@.len(),
            out.deep_view() =~= export_lines(rows@.take(i as int), *req),
        decreases rows@.len() - i,
    {
        let ghost prefix = rows@.take(i as int);
        let ghost x = rows@[i as int];
        let ghost old_lines = out.deep_view();
        match render_row(&rows[i], req) {
            Some(line) => {
                proof {
                    assert(line@ == x.line_text());
                }
                out.push(line);
                proof {
                    assert(out.deep_view() =~= old_lines.push(x.line_text()));
                }
            },
            None => (),
        }
        proof {
            reveal(Seq::filter);
            assert(rows@.take(i as int + 1) =~= prefix.push(x));
            assert(prefix.push(x).drop_last() =~= prefix);
            assert(prefix.push(x).last() == x);
            assert(selected_rows(rows@.take(i as int + 1), *req) == selected_rows(
                prefix.push(x),
                *req,
            ));
            let sel = selected_rows(prefix, *req);
            let sel2 = selected_rows(rows@.take(i as int + 1), *req);
            if selected(x, *req) {
                assert(sel2 == sel.push(x));
                assert(export_lines(rows@.take(i as int + 1), *req) =~= export_lines(
                    prefix,
                    *req,
                ).push(x.line_text()));
            } else {
                assert(sel2 == sel);
            }
            assert(out.deep_view() =~= export_lines(rows@.take(i as int + 1), *req));
        }
        i = i + 1;
    }
    proof {
        assert(rows@.take(rows@.len() as int) =~= rows@);
    }
    out
}

/// Every exported row passed its integrity check, decodes to a real
/// instant, has an id the decimation divides, and falls in the date
/// range: nothing outside the selection predicate ever reaches the
/// output, whatever the other parameters are.
pub proof fn lemma_only_selected_rows_exported(rows: Seq<TelemetryRow>, req: ExportRequest, i: int)
    requires
        0 <= i < selected_rows(rows, req).len(),
    ensures
        !selected_rows(rows, req)[i].integrity_failed,
        selected_rows(rows, req)[i].id as int % req.decimation as int == 0,
        req.start.le_spec(selected_rows(rows, req)[i].served_at.date_spec()),
        selected_rows(rows, req)[i].served_at.date_spec().le_spec(req.stop),
        rows.contains(selected_rows(rows, req)[i]),
        export_lines(rows, req)[i] == selected_rows(rows, req)[i].line_text(),
{
    broadcast use group_filter_ensures;
    broadcast use Seq::lemma_filter_contains_rev;

    let sel = selected_rows(rows, req);
    assert(sel.contains(sel[i]));
}

/// Every row the request selects appears in the export.
pub proof fn lemma_selected_row_exported(rows: Seq<TelemetryRow>, req: ExportRequest, i: int)
    requires
        0 <= i < rows.len(),
        selected(rows[i], req),
    ensures
        selected_rows(rows, req).contains(rows[i]),
{
    broadcast use group_filter_ensures;

}

/// When the table's ids are strictly increasing, so are the ids of the
/// exported rows: the export keeps ascending row-id order and repeats
/// no row.
pub proof fn lemma_export_order(rows: Seq<TelemetryRow>, req: ExportRequest)
    requires
        forall|i: int, j: int| 0 <= i < j < rows.len() ==> rows[i].id < rows[j].id,
    ensures
        forall|i: int, j: int|
            0 <= i < j < selected_rows(rows, req).len() ==> selected_rows(rows, req)[i].id
                < selected_rows(rows, req)[j].id,
        forall|i: int, j: int|
            0 <= i < j < selected_rows(rows, req).len() ==> selected_rows(rows, req)[i]
                != selected_rows(rows, req)[j],
    decreases rows.len(),
{
    broadcast use Seq::lemma_filter_contains_rev;

    reveal(Seq::filter);
    if rows.len() > 0 {
        let prefix = rows.drop_last();
        let last = rows.last();
        let pred = |r: TelemetryRow| selected(r, req);
        lemma_export_order(prefix, req);
        let sel = selected_rows(rows, req);
        let sel_prefix = selected_rows(prefix, req);
        assert forall|i: int, j: int| 0 <= i < j < sel.len() implies sel[i].id < sel[j].id by {
            if j < sel_prefix.len() {
                assert(sel[i] == sel_prefix[i] && sel[j] == sel_prefix[j]);
            } else {
                assert(pred(last) && sel[j] == last && sel[i] == sel_prefix[i]);
                assert(sel_prefix.contains(sel[i]));
                assert(prefix.contains(sel[i]));
                let k = choose|k: int| 0 <= k < prefix.len() && prefix[k] == sel[i];
                assert(rows[k] == sel[i] && rows[k].id < last.id);
            }
        }
    }
}

/// A reversed range — the start date after the stop date — selects
/// nothing: the export is empty, whatever the table holds.
pub proof fn lemma_reversed_range_empty(rows: Seq<TelemetryRow>, req: ExportRequest)
    requires
        !req.start.le_spec(req.stop),
    ensures
        export_lines(rows, req) == Seq::<Seq<char>>::empty(),
{
    let pred = |r: TelemetryRow| selected(r, req);
    assert forall|i: int| 0 <= i < rows.len() implies !pred(rows[i]) by {
        if pred(rows[i]) {
            let d = rows[i].served_at.date_spec();
            assert(req.start.le_spec(d) && d.le_spec(req.stop));
        }
    }
    rows.lemma_all_neg_filter_empty(pred);
    assert(export_lines(rows, req) =~= Seq::<Seq<char>>::empty());
}

/// The export is a pure function of the table and the request: the same
/// parameters against an unchanged table yield the identical sequence
/// of CSV lines, byte for byte.
pub proof fn lemma_export_deterministic(
    rows1: Seq<TelemetryRow>,
    rows2: Seq<TelemetryRow>,
    req1: ExportRequest,
    req2: ExportRequest,
)
    requires
        rows1 == rows2,
        req1 == req2,
    ensures
        export_lines(rows1, req1) == export_lines(rows2, req2),
{
}

} // verus!
