//! What is shown of records in table form, and how rows are laid out as an
//! aligned text table or as CSV.

use vstd::prelude::*;
use vstd::string::*;
use crate::text::{is_whitespace, trim_end, views};

verus! {

/// A record that can be shown as a table row under fixed column headers.
pub trait Tabular {
    /// How many columns the table has.
    spec fn columns() -> nat;

    /// The column headers.
    fn headers() -> (r: Vec<String>)
        ensures
            r@.len() == Self::columns(),
    ;

    /// The cells of this record's row, one per header.
    fn row(&self) -> (r: Vec<String>)
        ensures
            r@.len() == Self::columns(),
    ;
}

/// The pieces joined with `sep` between each two.
pub open spec fn join_seq(pieces: Seq<Seq<char>>, sep: Seq<char>) -> Seq<char>
    decreases pieces.len(),
{
    if pieces.len() == 0 {
        Seq::empty()
    } else if pieces.len() == 1 {
        pieces[0]
    } else {
        join_seq(pieces.drop_last(), sep) + sep + pieces.last()
    }
}

/// The texts of a list of rows.
pub open spec fn row_views(rows: Seq<Vec<String>>) -> Seq<Seq<Seq<char>>> {
    rows.map_values(|r: Vec<String>| views(r@))
}

/// Joins `pieces` with `sep` between each two.
pub fn join_texts(pieces: &Vec<String>, sep: &str) -> (r: String)
    ensures
        r@ == join_seq(views(pieces@), sep@),
{
    let mut r = String::new();
    let mut i: usize = 0;
    while i < pieces.len()
        invariant
            i <= pieces@.len(),
            r@ == join_seq(views(pieces@).take(i as int), sep@),
        decreases pieces@.len() - i,
    {
        let ghost before = r@;
        if i > 0 {
            r.append(sep);
        }
        r.append(pieces[i].as_str());
        proof {
            let v = views(pieces@);
            assert(v.take(i + 1).drop_last() =~= v.take(i as int));
            assert(v.take(i + 1).last() == pieces@[i as int]@);
            if i == 0 {
                assert(v.take(1) =~= seq![pieces@[0]@]);
                assert(before =~= Seq::<char>::empty());
            }
            assert(r@ =~= join_seq(v.take(i + 1), sep@));
        }
        i = i + 1;
    }
    assert(views(pieces@).take(pieces@.len() as int) =~= views(pieces@));
    r
}

/// `s` with each `"` doubled, as CSV writes a quoted field.
pub open spec fn csv_escape(s: Seq<char>) -> Seq<char>
    decreases s.len(),
{
    if s.len() == 0 {
        Seq::empty()
    } else {
        csv_escape(s.drop_last()) + if s.last() == '"' {
            seq!['"', '"']
        } else {
            seq![s.last()]
        }
    }
}

/// A CSV field: quoted, with quotes doubled, when it holds a comma, a quote or a
/// line break; else as it is.
pub open spec fn csv_field(s: Seq<char>) -> Seq<char> {
    if s.contains(',') || s.contains('"') || s.contains('\n') {
        seq!['"'] + csv_escape(s) + seq!['"']
    } else {
        s
    }
}

/// A CSV line of these cells.
pub open spec fn csv_line(cells: Seq<Seq<char>>) -> Seq<char> {
    join_seq(cells.map_values(|c: Seq<char>| csv_field(c)), ","@)
}

/// CSV text: the header line, then one line per row, separated by line breaks.
pub open spec fn csv_text(headers: Seq<Seq<char>>, rows: Seq<Seq<Seq<char>>>) -> Seq<char> {
    join_seq(
        seq![csv_line(headers)] + rows.map_values(|r: Seq<Seq<char>>| csv_line(r)),
        "\n"@,
    )
}

fn csv_field_text(s: &str) -> (r: String)
    ensures
        r@ == csv_field(s@),
{
    let len = s.unicode_len();
    let mut quote = false;
    let mut escaped = String::new();
    let mut i: usize = 0;
    while i < len
        invariant
            i <= len,
            len == s@.len(),
            escaped@ == csv_escape(s@.take(i as int)),
            quote == (s@.take(i as int).contains(',') || s@.take(i as int).contains('"')
                || s@.take(i as int).contains('\n')),
        decreases len - i,
    {
        let c = s.get_char(i);
        let ghost t = s@.take(i as int);
        let ghost u = s@.take(i + 1);
        proof {
            assert(u =~= t.push(c));
            assert(u.drop_last() =~= t);
            assert forall|x: char| u.contains(x) == (t.contains(x) || x == c) by {
                if u.contains(x) {
                    let k = choose|k: int| 0 <= k < u.len() && u[k] == x;
                    if k < i {
                        assert(t[k] == x);
                    }
                }
                if t.contains(x) {
                    let k = choose|k: int| 0 <= k < t.len() && t[k] == x;
                    assert(u[k] == x);
                }
                if x == c {
                    assert(u[i as int] == x);
                }
            }
        }
        if c == '"' {
            escaped.append("\"\"");
            proof {
                reveal_strlit("\"\"");
            }
        } else {
            escaped.append(s.substring_char(i, i + 1));
            assert(s@.subrange(i as int, i + 1) =~= seq![c]);
        }
        if c == ',' || c == '"' || c == '\n' {
            quote = true;
        }
        i = i + 1;
    }
    assert(s@.take(len as int) =~= s@);
    if quote {
        let r = String::from_str("\"").concat(escaped.as_str()).concat("\"");
        proof {
            reveal_strlit("\"");
        }
        r
    } else {
        String::from_str(s)
    }
}

/// A CSV line of these cells.
pub fn csv_line_text(cells: &Vec<String>) -> (r: String)
    ensures
        r@ == csv_line(views(cells@)),
{
    let mut fields: Vec<String> = Vec::new();
    let mut i: usize = 0;
    while i < cells.len()
        invariant
            i <= cells@.len(),
            views(fields@) == views(cells@).take(i as int).map_values(
                |c: Seq<char>| csv_field(c),
            ),
        decreases cells@.len() - i,
    {
        let ghost before = fields@;
        fields.push(csv_field_text(cells[i].as_str()));
        proof {
            assert(views(fields@) =~= views(before).push(csv_field(cells@[i as int]@)));
            assert(views(cells@).take(i + 1) =~= views(cells@).take(i as int).push(
                cells@[i as int]@,
            ));
            assert(views(fields@) =~= views(cells@).take(i + 1).map_values(
                |c: Seq<char>| csv_field(c),
            ));
        }
        i = i + 1;
    }
    assert(views(cells@).take(cells@.len() as int) =~= views(cells@));
    let r = join_texts(&fields, ",");
    proof {
        reveal_strlit(",");
    }
    r
}

/// Joins the lines with line breaks, the header line first.
fn join_lines(first: String, rest: Vec<String>) -> (r: String)
    ensures
        r@ == join_seq(seq![first@] + views(rest@), "\n"@),
{
    let mut all: Vec<String> = Vec::new();
    let ghost f = first@;
    all.push(first);
    let mut i: usize = 0;
    while i < rest.len()
        invariant
            i <= rest@.len(),
            views(all@) == seq![f] + views(rest@).take(i as int),
        decreases rest@.len() - i,
    {
        let ghost before = all@;
        let line = rest[i].clone();
        assert(line@ == rest@[i as int]@);
        all.push(line);
        assert(views(all@) =~= views(before).push(rest@[i as int]@));
        assert(views(rest@).take(i + 1) =~= views(rest@).take(i as int).push(rest@[i as int]@));
        assert(views(all@) =~= seq![f] + views(rest@).take(i + 1));
        i = i + 1;
    }
    assert(views(rest@).take(rest@.len() as int) =~= views(rest@));
    let r = join_texts(&all, "\n");
    proof {
        reveal_strlit("\n");
    }
    r
}

/// The rows as CSV under the headers.
pub fn render_csv(headers: &Vec<String>, rows: &Vec<Vec<String>>) -> (r: String)
    ensures
        r@ == csv_text(views(headers@), row_views(rows@)),
{
    let head = csv_line_text(headers);
    let mut lines: Vec<String> = Vec::new();
    let mut i: usize = 0;
    while i < rows.len()
        invariant
            i <= rows@.len(),
            views(lines@) == row_views(rows@).take(i as int).map_values(
                |r: Seq<Seq<char>>| csv_line(r),
            ),
        decreases rows@.len() - i,
    {
        let ghost before = lines@;
        lines.push(csv_line_text(&rows[i]));
        proof {
            assert(views(lines@) =~= views(before).push(csv_line(views(rows@[i as int]@))));
            assert(row_views(rows@).take(i + 1) =~= row_views(rows@).take(i as int).push(
                views(rows@[i as int]@),
            ));
            assert(views(lines@) =~= row_views(rows@).take(i + 1).map_values(
                |r: Seq<Seq<char>>| csv_line(r),
            ));
        }
        i = i + 1;
    }
    assert(row_views(rows@).take(rows@.len() as int) =~= row_views(rows@));
    join_lines(head, lines)
}

/// The widest text in column `i` over `rows`, at least `base`.
pub open spec fn max_cell_len(rows: Seq<Seq<Seq<char>>>, i: int, base: nat) -> nat
    decreases rows.len(),
{
    if rows.len() == 0 {
        base
    } else {
        let m = max_cell_len(rows.drop_last(), i, base);
        let r = rows.last();
        if 0 <= i < r.len() && r[i].len() > m {
            r[i].len()
        } else {
            m
        }
    }
}

/// The width of each column: its header's length, or the longest cell under it.
pub open spec fn column_widths(headers: Seq<Seq<char>>, rows: Seq<Seq<Seq<char>>>) -> Seq<nat> {
    Seq::new(headers.len(), |i: int| max_cell_len(rows, i, headers[i].len()))
}

/// `c` padded with spaces on the right to `w` characters.
pub open spec fn padded(c: Seq<char>, w: nat) -> Seq<char> {
    if c.len() >= w {
        c
    } else {
        c + Seq::new((w - c.len()) as nat, |k: int| ' ')
    }
}

/// A table line: each cell padded to its column's width (cells past the last
/// column are not padded), two spaces between cells, trailing whitespace removed.
pub open spec fn table_line(cells: Seq<Seq<char>>, widths: Seq<nat>) -> Seq<char> {
    trim_end(
        join_seq(
            Seq::new(
                cells.len(),
                |i: int|
                    padded(
                        cells[i],
                        if i < widths.len() {
                            widths[i]
                        } else {
                            0
                        },
                    ),
            ),
            "  "@,
        ),
    )
}

/// The line under the headers: dashes as wide as each column.
pub open spec fn rule_line(widths: Seq<nat>) -> Seq<char> {
    join_seq(widths.map_values(|w: nat| Seq::new(w, |k: int| '-')), "  "@)
}

/// An aligned text table: the header line, the rule, then one line per row.
pub open spec fn table_text(headers: Seq<Seq<char>>, rows: Seq<Seq<Seq<char>>>) -> Seq<char> {
    let w = column_widths(headers, rows);
    join_seq(
        seq![table_line(headers, w), rule_line(w)] + rows.map_values(
            |r: Seq<Seq<char>>| table_line(r, w),
        ),
        "\n"@,
    )
}

/// Widths as numbers.
pub open spec fn nat_widths(ws: Seq<usize>) -> Seq<nat> {
    ws.map_values(|w: usize| w as nat)
}

fn column_width(headers: &Vec<String>, rows: &Vec<Vec<String>>, i: usize) -> (w: usize)
    requires
        i < headers@.len(),
    ensures
        w == max_cell_len(row_views(rows@), i as int, headers@[i as int]@.len()),
{
    let mut w = headers[i].as_str().unicode_len();
    let mut j: usize = 0;
    while j < rows.len()
        invariant
            j <= rows@.len(),
            i < headers@.len(),
            w == max_cell_len(row_views(rows@).take(j as int), i as int, headers@[i as int]@.len()),
        decreases rows@.len() - j,
    {
        let row = &rows[j];
        proof {
            assert(row_views(rows@).take(j + 1).drop_last() =~= row_views(rows@).take(j as int));
            assert(row_views(rows@).take(j + 1).last() == views(row@));
        }
        if i < row.len() {
            let n = row[i].as_str().unicode_len();
            if n > w {
                w = n;
            }
        }
        j = j + 1;
    }
    assert(row_views(rows@).take(rows@.len() as int) =~= row_views(rows@));
    w
}

fn repeated(piece: &str, n: usize) -> (r: String)
    requires
        piece@.len() == 1,
    ensures
        r@ == Seq::new(n as nat, |k: int| piece@[0]),
{
    let mut r = String::new();
    let mut k: usize = 0;
    while k < n
        invariant
            k <= n,
            piece@.len() == 1,
            r@ == Seq::new(k as nat, |m: int| piece@[0]),
        decreases n - k,
    {
        r.append(piece);
        k = k + 1;
        assert(r@ =~= Seq::new(k as nat, |m: int| piece@[0]));
    }
    r
}

fn padded_text(c: &str, w: usize) -> (r: String)
    ensures
        r@ == padded(c@, w as nat),
{
    let n = c.unicode_len();
    if n >= w {
        String::from_str(c)
    } else {
        proof {
            reveal_strlit(" ");
        }
        let spaces = repeated(" ", w - n);
        let r = String::from_str(c).concat(spaces.as_str());
        assert(r@ =~= padded(c@, w as nat));
        r
    }
}

fn trim_end_text(s: &str) -> (r: String)
    ensures
        r@ == trim_end(s@),
{
    let len = s.unicode_len();
    let mut hi: usize = len;
    assert(s@.subrange(0, len as int) =~= s@);
    while hi > 0 && is_whitespace(s.get_char(hi - 1))
        invariant
            hi <= len,
            len == s@.len(),
            trim_end(s@) == trim_end(s@.subrange(0, hi as int)),
        decreases hi,
    {
        assert(s@.subrange(0, hi as int).drop_last() =~= s@.subrange(0, hi - 1));
        hi = hi - 1;
    }
    String::from_str(s.substring_char(0, hi))
}

fn table_line_text(cells: &Vec<String>, widths: &Vec<usize>) -> (r: String)
    ensures
        r@ == table_line(views(cells@), nat_widths(widths@)),
{
    let ghost ws = nat_widths(widths@);
    let ghost cv = views(cells@);
    let ghost target = Seq::new(
        cv.len(),
        |i: int|
            padded(
                cv[i],
                if i < ws.len() {
                    ws[i]
                } else {
                    0
                },
            ),
    );
    let mut parts: Vec<String> = Vec::new();
    let mut i: usize = 0;
    while i < cells.len()
        invariant
            i <= cells@.len(),
            cv == views(cells@),
            ws == nat_widths(widths@),
            target.len() == cv.len(),
            forall|k: int|
                0 <= k < cv.len() ==> #[trigger] target[k] == padded(
                    cv[k],
                    if k < ws.len() {
                        ws[k]
                    } else {
                        0
                    },
                ),
            views(parts@) == target.take(i as int),
        decreases cells@.len() - i,
    {
        let w: usize = if i < widths.len() {
            widths[i]
        } else {
            0
        };
        let ghost before = parts@;
        parts.push(padded_text(cells[i].as_str(), w));
        proof {
            assert(target[i as int] == padded(cv[i as int], w as nat));
            assert(views(parts@) =~= views(before).push(target[i as int]));
            assert(target.take(i + 1) =~= target.take(i as int).push(target[i as int]));
        }
        i = i + 1;
    }
    assert(target.take(cv.len() as int) =~= target);
    proof {
        reveal_strlit("  ");
    }
    let joined = join_texts(&parts, "  ");
    trim_end_text(joined.as_str())
}

fn rule_line_text(widths: &Vec<usize>) -> (r: String)
    ensures
        r@ == rule_line(nat_widths(widths@)),
{
    let ghost target = nat_widths(widths@).map_values(|w: nat| Seq::new(w, |k: int| '-'));
    let mut parts: Vec<String> = Vec::new();
    let mut i: usize = 0;
    proof {
        reveal_strlit("-");
    }
    while i < widths.len()
        invariant
            i <= widths@.len(),
            target == nat_widths(widths@).map_values(|w: nat| Seq::new(w, |k: int| '-')),
            "-"@ == seq!['-'],
            views(parts@) == target.take(i as int),
        decreases widths@.len() - i,
    {
        let ghost before = parts@;
        let d = repeated("-", widths[i]);
        parts.push(d);
        proof {
            assert(d@ =~= Seq::new(widths@[i as int] as nat, |k: int| '-'));
            assert(views(parts@) =~= views(before).push(target[i as int]));
            assert(target.take(i + 1) =~= target.take(i as int).push(target[i as int]));
        }
        i = i + 1;
    }
    assert(target.take(widths@.len() as int) =~= target);
    proof {
        reveal_strlit("  ");
    }
    join_texts(&parts, "  ")
}

/// The rows as an aligned text table under the headers.
pub fn render_table(headers: &Vec<String>, rows: &Vec<Vec<String>>) -> (r: String)
    ensures
        r@ == table_text(views(headers@), row_views(rows@)),
{
    let ghost cw = column_widths(views(headers@), row_views(rows@));
    let mut widths: Vec<usize> = Vec::new();
    let mut i: usize = 0;
    while i < headers.len()
        invariant
            i <= headers@.len(),
            cw == column_widths(views(headers@), row_views(rows@)),
            nat_widths(widths@) == cw.take(i as int),
        decreases headers@.len() - i,
    {
        let w = column_width(headers, rows, i);
        let ghost before = widths@;
        widths.push(w);
        proof {
            assert(views(headers@)[i as int] == headers@[i as int]@);
            assert(nat_widths(widths@) =~= nat_widths(before).push(w as nat));
            assert(cw.take(i + 1) =~= cw.take(i as int).push(cw[i as int]));
        }
        i = i + 1;
    }
    assert(cw.take(headers@.len() as int) =~= cw);
    let head = table_line_text(headers, &widths);
    let rule = rule_line_text(&widths);
    let mut lines: Vec<String> = Vec::new();
    lines.push(rule);
    let mut j: usize = 0;
    while j < rows.len()
        invariant
            j <= rows@.len(),
            nat_widths(widths@) == cw,
            views(lines@) == seq![rule_line(cw)] + row_views(rows@).take(j as int).map_values(
                |r: Seq<Seq<char>>| table_line(r, cw),
            ),
        decreases rows@.len() - j,
    {
        let ghost before = lines@;
        lines.push(table_line_text(&rows[j], &widths));
        proof {
            assert(views(lines@) =~= views(before).push(table_line(views(rows@[j as int]@), cw)));
            assert(row_views(rows@).take(j + 1) =~= row_views(rows@).take(j as int).push(
                views(rows@[j as int]@),
            ));
            assert(views(lines@) =~= seq![rule_line(cw)] + row_views(rows@).take(j + 1).map_values(
                |r: Seq<Seq<char>>| table_line(r, cw),
            ));
        }
        j = j + 1;
    }
    assert(row_views(rows@).take(rows@.len() as int) =~= row_views(rows@));
    let r = join_lines(head, lines);
    assert(seq![table_line(views(headers@), cw)] + (seq![rule_line(cw)] + row_views(rows@).map_values(
        |r: Seq<Seq<char>>| table_line(r, cw),
    )) =~= seq![table_line(views(headers@), cw), rule_line(cw)] + row_views(rows@).map_values(
        |r: Seq<Seq<char>>| table_line(r, cw),
    ));
    r
}

} // verus!
