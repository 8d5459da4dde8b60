use vstd::prelude::*;
use gbdt::decision_tree::ValueType;
use vstd::string::StringSliceAdditionalSpecFns;

verus! {

pub const NEWLINE: u8 = 10;

pub const CARRIAGE_RETURN: u8 = 13;

pub const COMMA: u8 = 44;

/// Columns of a data row: three features followed by the label.
pub const COLUMNS: usize = 4;

/// The pieces of `s` between occurrences of the delimiter `d`, in the manner of
/// `split`: a text without `d` is one piece, and two adjacent delimiters enclose an
/// empty piece.
pub open spec fn split_on(s: Seq<u8>, d: u8) -> Seq<Seq<u8>>
    decreases s.len(),
{
    if s.len() == 0 {
        seq![Seq::<u8>::empty()]
    } else {
        let prev = split_on(s.drop_last(), d);
        if s.last() == d {
            prev.push(Seq::<u8>::empty())
        } else {
            prev.update(prev.len() - 1, prev.last().push(s.last()))
        }
    }
}

/// A line ended by a newline loses a carriage return that precedes the newline.
pub open spec fn strip_cr(l: Seq<u8>) -> Seq<u8> {
    if l.len() > 0 && l.last() == CARRIAGE_RETURN {
        l.drop_last()
    } else {
        l
    }
}

/// The lines of a text, without their terminators; a final newline opens no new line.
pub open spec fn lines_of(s: Seq<u8>) -> Seq<Seq<u8>> {
    let p = split_on(s, NEWLINE);
    let ended = Seq::new((p.len() - 1) as nat, |k: int| strip_cr(p[k]));
    if p.last().len() == 0 {
        ended
    } else {
        ended.push(p.last())
    }
}

/// The data rows of a CSV text: every line after the header line.
pub open spec fn data_rows(s: Seq<u8>) -> Seq<Seq<u8>> {
    let l = lines_of(s);
    if l.len() == 0 {
        l
    } else {
        l.drop_first()
    }
}

/// Whether the bytes of a field are UTF-8 text that reads as a model value.
pub uninterp spec fn value_text(field: Seq<u8>) -> bool;

/// A row holds exactly four comma-separated fields, each a number.
pub open spec fn row_valid(r: Seq<u8>) -> bool {
    let f = split_on(r, COMMA);
    f.len() == COLUMNS && forall|j: int| 0 <= j < COLUMNS ==> value_text(#[trigger] f[j])
}

/// What is wrong with a data row.
#[derive(Clone, Copy, Debug, PartialEq, Eq, Structural)]
pub enum RowFault {
    /// The row has `found` fields instead of four.
    ColumnCount { found: usize },
    /// The row has four fields and the one at `column` is the first that is not a number.
    BadValue { column: usize },
}

/// The first faulty data row (0-based, the header not counted) and its fault.
#[derive(Clone, Copy, Debug, PartialEq, Eq, Structural)]
pub struct DatasetError {
    pub row: usize,
    pub fault: RowFault,
}

pub open spec fn row_has_fault(r: Seq<u8>, fault: RowFault) -> bool {
    let f = split_on(r, COMMA);
    match fault {
        RowFault::ColumnCount { found } => f.len() != COLUMNS && found == f.len(),
        RowFault::BadValue { column } => f.len() == COLUMNS && column < COLUMNS && !value_text(
            f[column as int],
        ) && forall|j: int| 0 <= j < column ==> value_text(#[trigger] f[j]),
    }
}

/// Every data row of the text is valid.
pub open spec fn dataset_valid(s: Seq<u8>) -> bool {
    let rows = data_rows(s);
    forall|k: int| 0 <= k < rows.len() ==> row_valid(#[trigger] rows[k])
}

/// `e` names the first faulty row of the text and its fault.
pub open spec fn dataset_fault(s: Seq<u8>, e: DatasetError) -> bool {
    let rows = data_rows(s);
    &&& e.row < rows.len()
    &&& forall|k: int| 0 <= k < e.row ==> row_valid(#[trigger] rows[k])
    &&& row_has_fault(rows[e.row as int], e.fault)
}

pub proof fn lemma_split_nonempty(s: Seq<u8>, d: u8)
    ensures
        split_on(s, d).len() >= 1,
    decreases s.len(),
{
    if s.len() > 0 {
        lemma_split_nonempty(s.drop_last(), d);
    }
}

/// Relies on `str::from_utf8` and on `FromStr` for gbdt's `ValueType`, the parse that
/// gbdt's CSV loader applies to each field; the answer depends on the bytes alone.
#[verifier::external_body]
fn is_value_field(b: &[u8], start: usize, end: usize) -> (r: bool)
    requires
        start <= end <= b@.len(),
    ensures
        r == value_text(b@.subrange(start as int, end as int)),
{
    std::str::from_utf8(&b[start..end]).map_or(false, |f| f.parse::<ValueType>().is_ok())
}

/// The ranges of the pieces of `b[start..end]` between occurrences of `d`.
fn split_ranges(b: &[u8], start: usize, end: usize, d: u8) -> (r: Vec<(usize, usize)>)
    requires
        start <= end <= b@.len(),
    ensures
        r@.len() == split_on(b@.subrange(start as int, end as int), d).len(),
        forall|k: int|
            0 <= k < r@.len() ==> start <= (#[trigger] r@[k]).0 <= r@[k].1 <= end
                && b@.subrange(r@[k].0 as int, r@[k].1 as int) == split_on(
                b@.subrange(start as int, end as int),
                d,
            )[k],
{
    let mut r: Vec<(usize, usize)> = Vec::new();
    let mut fs: usize = start;
    let mut i: usize = start;
    proof {
        assert(b@.subrange(start as int, start as int) =~= Seq::<u8>::empty());
    }
    while i < end
        invariant
            start <= fs <= i <= end <= b@.len(),
            split_on(b@.subrange(start as int, i as int), d).len() == r@.len() + 1,
            forall|k: int|
                0 <= k < r@.len() ==> start <= (#[trigger] r@[k]).0 <= r@[k].1 <= i
                    && b@.subrange(r@[k].0 as int, r@[k].1 as int) == split_on(
                    b@.subrange(start as int, i as int),
                    d,
                )[k],
            split_on(b@.subrange(start as int, i as int), d).last() == b@.subrange(
                fs as int,
                i as int,
            ),
        decreases end - i,
    {
        let ghost prev = split_on(b@.subrange(start as int, i as int), d);
        proof {
            assert(b@.subrange(start as int, i + 1).drop_last() =~= b@.subrange(
                start as int,
                i as int,
            ));
            assert(b@.subrange(fs as int, i as int).push(b@[i as int]) =~= b@.subrange(
                fs as int,
                i + 1,
            ));
            assert(b@.subrange(i + 1, i + 1) =~= Seq::<u8>::empty());
        }
        if b[i] == d {
            r.push((fs, i));
            fs = i + 1;
        }
        i = i + 1;
        proof {
            let cur = split_on(b@.subrange(start as int, i as int), d);
            assert forall|k: int| 0 <= k < r@.len() implies start <= (#[trigger] r@[k]).0
                <= r@[k].1 <= i && b@.subrange(r@[k].0 as int, r@[k].1 as int) == cur[k] by {
                assert(cur[k] == prev[k]);
            }
        }
    }
    r.push((fs, end));
    r
}

/// Checks a CSV dataset text with a header line: every following line must hold four
/// comma-separated numbers. Returns the number of data rows, or the first faulty row.
pub fn check_dataset(text: &str) -> (r: Result<usize, DatasetError>)
    ensures
        r is Ok <==> dataset_valid(text.spec_bytes()),
        r is Ok ==> r->Ok_0 == data_rows(text.spec_bytes()).len(),
        r is Err ==> dataset_fault(text.spec_bytes(), r->Err_0),
{
    let b = text.as_bytes();
    let ghost s = b@;
    let ghost p = split_on(s, NEWLINE);
    let lines = split_ranges(b, 0, b.len(), NEWLINE);
    proof {
        assert(s.subrange(0, s.len() as int) =~= s);
        lemma_split_nonempty(s, NEWLINE);
    }
    let n = lines.len();
    let (last_start, last_end) = lines[n - 1];
    let m: usize = if last_start == last_end {
        n - 1
    } else {
        n
    };
    let ghost lines_spec = lines_of(s);
    assert(lines_spec.len() == m);
    if m == 0 {
        return Ok(0);
    }
    let ghost rows = data_rows(s);
    let mut k: usize = 1;
    while k < m
        invariant
            1 <= k <= m <= n,
            n == lines@.len(),
            n == p.len(),
            m == lines_spec.len(),
            rows == lines_spec.drop_first(),
            rows == data_rows(s),
            rows.len() == m - 1,
            lines_spec == lines_of(s),
            p == split_on(s, NEWLINE),
            s == b@,
            s == text.spec_bytes(),
            m == n - 1 ==> p.last().len() == 0,
            m == n ==> p.last().len() != 0,
            forall|j: int|
                0 <= j < n ==> (#[trigger] lines@[j]).0 <= lines@[j].1 <= b@.len() && b@.subrange(
                    lines@[j].0 as int,
                    lines@[j].1 as int,
                ) == p[j],
            forall|j: int| 0 <= j < k - 1 ==> row_valid(#[trigger] rows[j]),
        decreases m - k,
    {
        let (rs, le) = lines[k];
        let mut re = le;
        if k + 1 < n && re > rs && b[re - 1] == CARRIAGE_RETURN {
            re = re - 1;
        }
        proof {
            assert(rows[k - 1] == lines_spec[k as int]);
            if k + 1 < n {
                assert(lines_spec[k as int] == strip_cr(p[k as int]));
                if re < le {
                    assert(b@.subrange(rs as int, le as int).drop_last() =~= b@.subrange(
                        rs as int,
                        re as int,
                    ));
                }
            } else {
                assert(lines_spec[k as int] == p[k as int]);
            }
            assert(b@.subrange(rs as int, re as int) == rows[k - 1]);
        }
        let fields = split_ranges(b, rs, re, COMMA);
        if fields.len() != COLUMNS {
            assert(!row_valid(rows[k - 1]));
            assert(!dataset_valid(s));
            return Err(
                DatasetError { row: k - 1, fault: RowFault::ColumnCount { found: fields.len() } },
            );
        }
        let mut j: usize = 0;
        while j < COLUMNS
            invariant
                0 <= j <= COLUMNS,
                1 <= k < m,
                rows == data_rows(s),
                rows.len() == m - 1,
                s == b@,
                s == text.spec_bytes(),
                forall|t: int| 0 <= t < k - 1 ==> row_valid(#[trigger] rows[t]),
                fields@.len() == COLUMNS,
                split_on(b@.subrange(rs as int, re as int), COMMA).len() == COLUMNS,
                b@.subrange(rs as int, re as int) == rows[k - 1],
                rs <= re <= b@.len(),
                forall|t: int|
                    0 <= t < fields@.len() ==> rs <= (#[trigger] fields@[t]).0 <= fields@[t].1
                        <= re && b@.subrange(fields@[t].0 as int, fields@[t].1 as int)
                        == split_on(b@.subrange(rs as int, re as int), COMMA)[t],
                forall|t: int|
                    0 <= t < j ==> value_text(
                        #[trigger] split_on(b@.subrange(rs as int, re as int), COMMA)[t],
                    ),
            decreases COLUMNS - j,
        {
            let (fs, fe) = fields[j];
            if !is_value_field(b, fs, fe) {
                assert(!row_valid(rows[k - 1]));
                assert(!dataset_valid(s));
                return Err(DatasetError { row: k - 1, fault: RowFault::BadValue { column: j } });
            }
            j = j + 1;
        }
        k = k + 1;
    }
    Ok(m - 1)
}

} // verus!
