//! DECISIONS.md-style markdown tables, where each row is a decision record.
use vstd::prelude::*;
use crate::text::{
    chars_of, count_char, count_of, ends_with, has_prefix_lit, has_suffix_lit, lines,
    lines_of, lower, seq_eq, seqs_of, split, split_on, starts_with, to_lower, trim, trim_end_in,
    trim_end_set, trim_start_in, trim_start_set, trim_ws,
};
use crate::front_matter::opt_view;

verus! {

/// One table row: its status cell (if non-empty) and its title cell.
pub struct TableRow {
    pub status_raw: Option<Vec<char>>,
    pub epitome: Vec<char>,
}

/// The model of `TableRow`.
pub struct TableRowView {
    pub status_raw: Option<Seq<char>>,
    pub epitome: Seq<char>,
}

impl View for TableRow {
    type V = TableRowView;

    open spec fn view(&self) -> TableRowView {
        TableRowView { status_raw: opt_view(self.status_raw), epitome: self.epitome@ }
    }
}

pub open spec fn rows_view(rows: Seq<TableRow>) -> Seq<TableRowView> {
    rows.map_values(|r: TableRow| r@)
}

/// The trimmed cells of a `| a | b |` row.
pub open spec fn spec_split_table_row(line: Seq<char>) -> Seq<Seq<char>> {
    let inner = trim_end_set(trim_start_set(trim(line), seq!['|'], false), seq!['|'], false);
    split(inner, '|').map_values(|p: Seq<char>| trim(p))
}

pub fn split_table_row(line: &[char]) -> (r: Vec<Vec<char>>)
    ensures
        seqs_of(r@) == spec_split_table_row(line@),
{
    let bar: Vec<char> = vec!['|'];
    assert(bar@ =~= seq!['|']);
    let t = trim_ws(line);
    let a = trim_start_in(&t, &bar, false);
    let inner = trim_end_in(&a, &bar, false);
    let pieces = split_on(&inner, '|');
    let ghost ps = seqs_of(pieces@);
    let mut out: Vec<Vec<char>> = Vec::new();
    let mut i: usize = 0;
    while i < pieces.len()
        invariant
            ps == seqs_of(pieces@),
            i <= pieces.len(),
            seqs_of(out@) =~= ps.take(i as int).map_values(|p: Seq<char>| trim(p)),
        decreases pieces.len() - i,
    {
        assert(pieces[i as int]@ == ps[i as int]);
        let ghost prev = seqs_of(out@);
        let x = trim_ws(&pieces[i]);
        out.push(x);
        assert(seqs_of(out@) =~= prev.push(x@));
        assert(ps.take(i + 1) =~= ps.take(i as int).push(ps[i as int]));
        i = i + 1;
        assert(seqs_of(out@) =~= ps.take(i as int).map_values(|p: Seq<char>| trim(p)));
    }
    assert(ps.take(pieces.len() as int) =~= ps);
    out
}

/// Characters a separator row (`|---|:--:|`) is made of.
pub open spec fn is_separator_char(c: char) -> bool {
    c == '|' || c == '-' || c == ':' || c == ' ' || c == '\t'
}

/// A `|---|---|` line: starts with `|`, holds only `|-: \t`, and has a `-`.
pub open spec fn spec_is_table_separator(line: Seq<char>) -> bool {
    let t = trim(line);
    &&& starts_with(t, "|"@)
    &&& forall|k: int| 0 <= k < t.len() ==> is_separator_char(#[trigger] t[k])
    &&& t.contains('-')
}

pub fn is_table_separator(line: &[char]) -> (r: bool)
    ensures
        r == spec_is_table_separator(line@),
{
    let t = trim_ws(line);
    if !has_prefix_lit(&t, "|") {
        return false;
    }
    let mut all_sep = true;
    let mut dash = false;
    let mut k: usize = 0;
    while k < t.len()
        invariant
            k <= t.len(),
            all_sep == forall|m: int| 0 <= m < k ==> is_separator_char(#[trigger] t@[m]),
            dash == exists|m: int| 0 <= m < k && t@[m] == '-',
        decreases t.len() - k,
    {
        let c = t[k];
        all_sep = all_sep && (c == '|' || c == '-' || c == ':' || c == ' ' || c == '\t');
        dash = dash || c == '-';
        k = k + 1;
    }
    all_sep && dash
}

/// The header kinds the table strategy looks for.
pub enum HeaderKind {
    Status,
    Decision,
    Date,
}

/// Whether a header cell names the given column (ignoring case and
/// surrounding whitespace).
pub open spec fn header_is(kind: HeaderKind, cell: Seq<char>) -> bool {
    let lc = lower(trim(cell));
    match kind {
        HeaderKind::Status => lc == lower("status"@),
        HeaderKind::Decision => lc == "decision"@ || lc == "title"@ || lc == "summary"@,
        HeaderKind::Date => lc == lower("date"@),
    }
}

/// The header names the table strategy reads (trimmed, ignoring ASCII case):
/// the status column is `Status`, the decision column `Decision`, `Title`
/// or `Summary`, and the date column `Date`.
pub proof fn law_table_header_names(cell: Seq<char>)
    ensures
        header_is(HeaderKind::Status, cell) <==> lower(trim(cell)) == "status"@,
        header_is(HeaderKind::Decision, cell) <==> {
            ||| lower(trim(cell)) == "decision"@
            ||| lower(trim(cell)) == "title"@
            ||| lower(trim(cell)) == "summary"@
        },
        header_is(HeaderKind::Date, cell) <==> lower(trim(cell)) == "date"@,
{
    reveal_strlit("status");
    reveal_strlit("date");
    assert(lower("status"@) =~= "status"@);
    assert(lower("date"@) =~= "date"@);
}

/// The index of the first header cell among `cells[i..]` naming `kind`.
pub open spec fn column_from(cells: Seq<Seq<char>>, kind: HeaderKind, i: int) -> Option<int>
    decreases cells.len() - i,
{
    if i < 0 || i >= cells.len() {
        None
    } else if header_is(kind, cells[i]) {
        Some(i)
    } else {
        column_from(cells, kind, i + 1)
    }
}

fn header_cell_is(kind: &HeaderKind, cell: &[char]) -> (r: bool)
    ensures
        r == header_is(*kind, cell@),
{
    let t = trim_ws(cell);
    let lc = to_lower(&t);
    match kind {
        HeaderKind::Status => {
            let w = chars_of("status");
            seq_eq(&lc, &to_lower(&w))
        },
        HeaderKind::Decision => crate::text::eq_lit(&lc, "decision") || crate::text::eq_lit(
            &lc,
            "title",
        ) || crate::text::eq_lit(&lc, "summary"),
        HeaderKind::Date => {
            let w = chars_of("date");
            seq_eq(&lc, &to_lower(&w))
        },
    }
}

fn column_of(cells: &Vec<Vec<char>>, kind: HeaderKind) -> (r: Option<usize>)
    ensures
        match r {
            Some(c) => column_from(seqs_of(cells@), kind, 0) == Some(c as int),
            None => column_from(seqs_of(cells@), kind, 0) is None,
        },
{
    let ghost cv = seqs_of(cells@);
    let mut i: usize = 0;
    while i < cells.len()
        invariant
            cv == seqs_of(cells@),
            i <= cells.len(),
            column_from(cv, kind, 0) == column_from(cv, kind, i as int),
        decreases cells.len() - i,
    {
        assert(cells[i as int]@ == cv[i as int]);
        if header_cell_is(&kind, &cells[i]) {
            return Some(i);
        }
        i = i + 1;
    }
    None
}

/// The cell in column `col`, when there is one.
pub open spec fn cell_at(cells: Seq<Seq<char>>, col: Option<int>) -> Option<Seq<char>> {
    match col {
        Some(c) => if 0 <= c < cells.len() {
            Some(cells[c])
        } else {
            None
        },
        None => None,
    }
}

/// A row's title: the non-empty decision cell, else the date cell, else empty.
pub open spec fn row_epitome(
    cells: Seq<Seq<char>>,
    decision_col: Option<int>,
    date_col: Option<int>,
) -> Seq<char> {
    match cell_at(cells, decision_col) {
        Some(d) if trim(d).len() > 0 => trim(d),
        _ => match cell_at(cells, date_col) {
            Some(d) => trim(d),
            None => seq![],
        },
    }
}

/// A row's status: its status cell, when non-empty.
pub open spec fn row_status(cells: Seq<Seq<char>>, status_col: Option<int>) -> Option<Seq<char>> {
    match cell_at(cells, status_col) {
        Some(s) if trim(s).len() > 0 => Some(trim(s)),
        _ => None,
    }
}

/// The rows from `ls[j..]` on, up to the first line that does not start
/// with `|`; rows with an empty title are left out.
pub open spec fn table_rows(
    ls: Seq<Seq<char>>,
    j: int,
    status_col: Option<int>,
    decision_col: Option<int>,
    date_col: Option<int>,
) -> Seq<TableRowView>
    decreases ls.len() - j,
{
    if j < 0 || j >= ls.len() || !starts_with(trim(ls[j]), "|"@) {
        seq![]
    } else {
        let cells = spec_split_table_row(trim(ls[j]));
        if cells.len() == 0 {
            seq![]
        } else {
            let epitome = row_epitome(cells, decision_col, date_col);
            let rest = table_rows(ls, j + 1, status_col, decision_col, date_col);
            if epitome.len() > 0 {
                seq![TableRowView { status_raw: row_status(cells, status_col), epitome }] + rest
            } else {
                rest
            }
        }
    }
}

/// A line that can be a table header: `|`-delimited with at least three `|`.
pub open spec fn is_header_line(line: Seq<char>) -> bool {
    starts_with(line, "|"@) && ends_with(line, "|"@) && count_char(line, '|') >= 3
}

/// The rows of the first table (header, separator, rows) among `ls[i..]`
/// that has at least one row.
pub open spec fn table_from(ls: Seq<Seq<char>>, i: int) -> Option<Seq<TableRowView>>
    decreases ls.len() - i,
{
    if i < 0 || i >= ls.len() {
        None
    } else {
        let line = trim(ls[i]);
        if is_header_line(line) && i + 1 < ls.len() && spec_is_table_separator(ls[i + 1]) {
            let header = spec_split_table_row(line);
            let rows = table_rows(
                ls,
                i + 2,
                column_from(header, HeaderKind::Status, 0),
                column_from(header, HeaderKind::Decision, 0),
                column_from(header, HeaderKind::Date, 0),
            );
            if rows.len() > 0 {
                Some(rows)
            } else {
                table_from(ls, i + 1)
            }
        } else {
            table_from(ls, i + 1)
        }
    }
}

/// P10: the rows of the first DECISIONS.md-style table in the document.
pub open spec fn spec_parse_decisions_table(content: Seq<char>) -> Option<Seq<TableRowView>> {
    table_from(lines(content), 0)
}


pub open spec fn opt_int(o: Option<usize>) -> Option<int> {
    match o {
        Some(c) => Some(c as int),
        None => None,
    }
}

fn cell_of(cells: &Vec<Vec<char>>, col: Option<usize>) -> (r: Option<Vec<char>>)
    ensures
        opt_view(r) == cell_at(seqs_of(cells@), opt_int(col)),
{
    match col {
        Some(c) => if c < cells.len() {
            let v = &cells[c];
            Some(crate::text::copy_range(v, 0, v.len()))
        } else {
            None
        },
        None => None,
    }
}

fn epitome_of(cells: &Vec<Vec<char>>, decision_col: Option<usize>, date_col: Option<usize>) -> (r: Vec<char>)
    ensures
        r@ == row_epitome(seqs_of(cells@), opt_int(decision_col), opt_int(date_col)),
{
    match cell_of(cells, decision_col) {
        Some(d) => {
            let t = trim_ws(&d);
            if t.len() > 0 {
                return t;
            }
        },
        None => {},
    }
    match cell_of(cells, date_col) {
        Some(d) => trim_ws(&d),
        None => {
            let e: Vec<char> = Vec::new();
            assert(e@ =~= seq![]);
            e
        },
    }
}

fn status_of(cells: &Vec<Vec<char>>, status_col: Option<usize>) -> (r: Option<Vec<char>>)
    ensures
        opt_view(r) == row_status(seqs_of(cells@), opt_int(status_col)),
{
    match cell_of(cells, status_col) {
        Some(s) => {
            let t = trim_ws(&s);
            if t.len() > 0 {
                Some(t)
            } else {
                None
            }
        },
        None => None,
    }
}

fn scan_decisions_table(content: &[char]) -> (r: Option<Vec<TableRow>>)
    ensures
        match r {
            Some(v) => spec_parse_decisions_table(content@) == Some(rows_view(v@)),
            None => spec_parse_decisions_table(content@) is None,
        },
{
    let ls = lines_of(content);
    let ghost lsv = seqs_of(ls@);
    let mut i: usize = 0;
    while i < ls.len()
        invariant
            lsv == seqs_of(ls@),
            lsv == lines(content@),
            i <= ls.len(),
            table_from(lsv, 0) == table_from(lsv, i as int),
        decreases ls.len() - i,
    {
        assert(ls[i as int]@ == lsv[i as int]);
        let line = trim_ws(&ls[i]);
        let header_shape = has_prefix_lit(&line, "|") && has_suffix_lit(&line, "|") && count_of(
            &line,
            '|',
        ) >= 3;
        if header_shape && i + 1 < ls.len() && is_table_separator(&ls[i + 1]) {
            assert(ls[i + 1]@ == lsv[i + 1]);
            let header = split_table_row(&line);
            let status_col = column_of(&header, HeaderKind::Status);
            let decision_col = column_of(&header, HeaderKind::Decision);
            let date_col = column_of(&header, HeaderKind::Date);
            let ghost sc = opt_int(status_col);
            let ghost dc = opt_int(decision_col);
            let ghost tc = opt_int(date_col);
            let mut rows: Vec<TableRow> = Vec::new();
            let mut j: usize = i + 2;
            assert(rows_view(rows@) + table_rows(lsv, j as int, sc, dc, tc) =~= table_rows(
                lsv,
                i + 2,
                sc,
                dc,
                tc,
            ));
            while j < ls.len()
                invariant
                    lsv == seqs_of(ls@),
                    i + 2 <= j,
                    rows_view(rows@) + table_rows(lsv, j as int, sc, dc, tc) == table_rows(
                        lsv,
                        i + 2,
                        sc,
                        dc,
                        tc,
                    ),
                    sc == opt_int(status_col),
                    dc == opt_int(decision_col),
                    tc == opt_int(date_col),
                ensures
                    rows_view(rows@) == table_rows(lsv, i + 2, sc, dc, tc),
                decreases ls.len() - j,
            {
                assert(ls[j as int]@ == lsv[j as int]);
                let row_line = trim_ws(&ls[j]);
                if !has_prefix_lit(&row_line, "|") {
                    assert(rows_view(rows@) + seq![] =~= rows_view(rows@));
                    break;
                }
                let cells = split_table_row(&row_line);
                if cells.len() == 0 {
                    assert(rows_view(rows@) + seq![] =~= rows_view(rows@));
                    break;
                }
                let epitome = epitome_of(&cells, decision_col, date_col);
                let status_raw = status_of(&cells, status_col);
                let ghost prev = rows_view(rows@);
                if epitome.len() > 0 {
                    let row = TableRow { status_raw, epitome };
                    rows.push(row);
                    assert(rows_view(rows@) =~= prev.push(row@));
                    assert(prev + table_rows(lsv, j as int, sc, dc, tc) =~= prev.push(row@)
                        + table_rows(lsv, j + 1, sc, dc, tc));
                }
                j = j + 1;
            }
            if j >= ls.len() {
                assert(rows_view(rows@) + seq![] =~= rows_view(rows@));
            }
            if rows.len() > 0 {
                return Some(rows);
            }
        }
        i = i + 1;
    }
    None
}

/// Find a `Status`-columned table (header row, separator row, rows) and
/// return its rows with a non-empty title.
pub fn parse_decisions_table(content: &[char]) -> (r: Option<Vec<TableRow>>)
    ensures
        match r {
            Some(v) => spec_parse_decisions_table(content@) == Some(rows_view(v@)),
            None => spec_parse_decisions_table(content@) is None,
        },
        r matches Some(v) ==> {
            &&& v@.len() > 0
            &&& forall|k: int|
                0 <= k < v@.len() ==> {
                    &&& (#[trigger] v@[k]).epitome@.len() > 0
                    &&& trim(v@[k].epitome@) == v@[k].epitome@
                    &&& (v@[k].status_raw matches Some(st) ==> st@.len() > 0 && trim(st@)
                        == st@)
                }
        },
        (forall|k: int|
            0 <= k < lines(content@).len() ==> !{
                let l = trim(#[trigger] lines(content@)[k]);
                starts_with(l, "|"@) && ends_with(l, "|"@) && count_char(l, '|') >= 3
            }) ==> r is None,
{
    let r = scan_decisions_table(content);
    proof {
        law_parse_decisions_table_shape(content@);
        if r is Some {
            let v = r->0;
            assert(rows_view(v@).len() == v@.len());
            assert forall|k: int| 0 <= k < v@.len() implies {
                &&& (#[trigger] v@[k]).epitome@.len() > 0
                &&& trim(v@[k].epitome@) == v@[k].epitome@
                &&& (v@[k].status_raw matches Some(st) ==> st@.len() > 0 && trim(st@) == st@)
            } by {
                assert(rows_view(v@)[k] == v@[k]@);
                if let Some(st) = v@[k].status_raw {
                    assert(v@[k]@.status_raw == Some(st@));
                }
            }
        }
    }
    r
}


/// A row as the table strategy keeps it: a non-empty trimmed title and, if
/// any, a non-empty trimmed status.
pub open spec fn is_clean_row(row: TableRowView) -> bool {
    &&& row.epitome.len() > 0
    &&& trim(row.epitome) == row.epitome
    &&& (row.status_raw matches Some(s) ==> s.len() > 0 && trim(s) == s)
}

proof fn lemma_table_rows_clean(
    ls: Seq<Seq<char>>,
    j: int,
    status_col: Option<int>,
    decision_col: Option<int>,
    date_col: Option<int>,
)
    ensures
        forall|k: int|
            0 <= k < table_rows(ls, j, status_col, decision_col, date_col).len() ==> is_clean_row(
                #[trigger] table_rows(ls, j, status_col, decision_col, date_col)[k],
            ),
    decreases ls.len() - j,
{
    if !(j < 0 || j >= ls.len() || !starts_with(trim(ls[j]), "|"@)) {
        let cells = spec_split_table_row(trim(ls[j]));
        if cells.len() > 0 {
            lemma_table_rows_clean(ls, j + 1, status_col, decision_col, date_col);
            let epitome = row_epitome(cells, decision_col, date_col);
            let rest = table_rows(ls, j + 1, status_col, decision_col, date_col);
            if epitome.len() > 0 {
                let row = TableRowView { status_raw: row_status(cells, status_col), epitome };
                match cell_at(cells, decision_col) {
                    Some(d) => crate::text::lemma_trim_set_idempotent(d, seq![], true),
                    None => {},
                }
                match cell_at(cells, date_col) {
                    Some(d) => crate::text::lemma_trim_set_idempotent(d, seq![], true),
                    None => {},
                }
                match cell_at(cells, status_col) {
                    Some(c) => crate::text::lemma_trim_set_idempotent(c, seq![], true),
                    None => {},
                }
                assert(is_clean_row(row));
                let all = seq![row] + rest;
                assert forall|k: int| 0 <= k < all.len() implies is_clean_row(#[trigger] all[k]) by {
                    if k > 0 {
                        assert(all[k] == rest[k - 1]);
                    }
                }
            }
        }
    }
}

proof fn lemma_table_from_clean(ls: Seq<Seq<char>>, i: int)
    ensures
        table_from(ls, i) matches Some(rows) ==> rows.len() > 0 && forall|k: int|
            0 <= k < rows.len() ==> is_clean_row(#[trigger] rows[k]),
    decreases ls.len() - i,
{
    if !(i < 0 || i >= ls.len()) {
        let line = trim(ls[i]);
        if is_header_line(line) && i + 1 < ls.len() && spec_is_table_separator(ls[i + 1]) {
            let header = spec_split_table_row(line);
            lemma_table_rows_clean(
                ls,
                i + 2,
                column_from(header, HeaderKind::Status, 0),
                column_from(header, HeaderKind::Decision, 0),
                column_from(header, HeaderKind::Date, 0),
            );
        }
        lemma_table_from_clean(ls, i + 1);
    }
}

proof fn lemma_table_from_needs_header(ls: Seq<Seq<char>>, i: int)
    requires
        forall|k: int| 0 <= k < ls.len() ==> !is_header_line(trim(#[trigger] ls[k])),
    ensures
        table_from(ls, i) is None,
    decreases ls.len() - i,
{
    if !(i < 0 || i >= ls.len()) {
        assert(!is_header_line(trim(ls[i])));
        lemma_table_from_needs_header(ls, i + 1);
    }
}

/// `parse_decisions_table` returns only a non-empty list of rows, each with
/// a non-empty trimmed title and, if any, a non-empty trimmed status; and it
/// returns `None` when no line of the content, trimmed, starts and ends with
/// `|` and holds at least three `|`.
pub proof fn law_parse_decisions_table_shape(content: Seq<char>)
    ensures
        spec_parse_decisions_table(content) matches Some(rows) ==> {
            &&& rows.len() > 0
            &&& forall|k: int|
                0 <= k < rows.len() ==> {
                    &&& (#[trigger] rows[k]).epitome.len() > 0
                    &&& trim(rows[k].epitome) == rows[k].epitome
                    &&& (rows[k].status_raw matches Some(st) ==> st.len() > 0 && trim(st) == st)
                }
        },
        (forall|k: int|
            0 <= k < lines(content).len() ==> !{
                let l = trim(#[trigger] lines(content)[k]);
                starts_with(l, "|"@) && ends_with(l, "|"@) && count_char(l, '|') >= 3
            }) ==> spec_parse_decisions_table(content) is None,
{
    lemma_table_from_clean(lines(content), 0);
    if forall|k: int|
        0 <= k < lines(content).len() ==> !is_header_line(trim(#[trigger] lines(content)[k])) {
        lemma_table_from_needs_header(lines(content), 0);
    }
    if let Some(rows) = spec_parse_decisions_table(content) {
        assert forall|k: int| 0 <= k < rows.len() implies {
            &&& (#[trigger] rows[k]).epitome.len() > 0
            &&& trim(rows[k].epitome) == rows[k].epitome
            &&& (rows[k].status_raw matches Some(st) ==> st.len() > 0 && trim(st) == st)
        } by {
            assert(is_clean_row(rows[k]));
        }
    }
}

} // verus!
