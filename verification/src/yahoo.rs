//! Symbol-list handling for the financial-statement feed: the calendar
//! entry model and the parser for the symbols file.
//!
//! The symbols file is a comma-separated table whose first column holds
//! the ticker symbols. Reading the file is I/O and stays outside the
//! library; turning its bytes into the symbol list — line by line, header
//! and blanks skipped, fields trimmed — is verified here.

use vstd::prelude::*;

verus! {

/// Which calendar date a feed entry announces.
#[derive(Clone, Copy, Debug, PartialEq, Eq, Structural)]
pub enum CalendarDateType {
    Earnings,
    ExDividend,
    DividendPayment,
}

/// One calendar announcement: a symbol, what kind of date, and the
/// instant as microseconds since the Unix epoch (UTC).
#[derive(Clone, Debug)]
pub struct CalendarEntry {
    pub symbol: String,
    pub date_type: CalendarDateType,
    pub date: i64,
}

/// Whether the byte is blank space (ASCII whitespace).
pub open spec fn is_space(b: u8) -> bool {
    b == 32 || (9 <= b <= 13)
}

/// The sequence without its leading blank space.
pub open spec fn trim_front_spec(s: Seq<u8>) -> Seq<u8>
    decreases s.len(),
{
    if s.len() > 0 && is_space(s[0]) {
        trim_front_spec(s.drop_first())
    } else {
        s
    }
}

/// The sequence without its trailing blank space.
pub open spec fn trim_back_spec(s: Seq<u8>) -> Seq<u8>
    decreases s.len(),
{
    if s.len() > 0 && is_space(s.last()) {
        trim_back_spec(s.drop_last())
    } else {
        s
    }
}

/// The sequence without leading and trailing blank space.
pub open spec fn trim_spec(s: Seq<u8>) -> Seq<u8> {
    trim_back_spec(trim_front_spec(s))
}

/// The lines of a byte sequence: the segments between line feeds. Every
/// line feed ends a segment, and the remainder after the last one is a
/// segment too, so the result is never empty.
pub open spec fn split_lines_spec(s: Seq<u8>) -> Seq<Seq<u8>>
    decreases s.len(),
{
    if s.len() == 0 {
        seq![Seq::empty()]
    } else if s[0] == 10 {
        seq![Seq::<u8>::empty()] + split_lines_spec(s.drop_first())
    } else {
        let rest = split_lines_spec(s.drop_first());
        seq![seq![s[0]] + rest[0]] + rest.drop_first()
    }
}

/// The bytes of a line before its first comma.
pub open spec fn first_field_spec(s: Seq<u8>) -> Seq<u8>
    decreases s.len(),
{
    if s.len() == 0 || s[0] == 44 {
        Seq::empty()
    } else {
        seq![s[0]] + first_field_spec(s.drop_first())
    }
}

/// The byte with an ASCII capital letter lowered.
pub open spec fn lower_byte(b: u8) -> u8 {
    if 65 <= b <= 90 {
        (b + 32) as u8
    } else {
        b
    }
}

/// Whether a trimmed line is the table header: it starts with the word
/// "symbol", in any capitalisation.
pub open spec fn is_header(t: Seq<u8>) -> bool {
    &&& t.len() >= 6
    &&& lower_byte(t[0]) == 115
    &&& lower_byte(t[1]) == 121
    &&& lower_byte(t[2]) == 109
    &&& lower_byte(t[3]) == 98
    &&& lower_byte(t[4]) == 111
    &&& lower_byte(t[5]) == 108
}

/// The symbol a line contributes: the trimmed first field of the trimmed
/// line — nothing when the line is blank, is the header line of the
/// table, or has a blank first field.
pub open spec fn line_symbol_spec(line: Seq<u8>, first: bool) -> Option<Seq<u8>> {
    let t = trim_spec(line);
    if t.len() == 0 {
        None
    } else if first && is_header(t) {
        None
    } else {
        let f = trim_spec(first_field_spec(t));
        if f.len() == 0 {
            None
        } else {
            Some(f)
        }
    }
}

/// The symbols a sequence of lines contributes, in line order; only the
/// first line can be the header.
pub open spec fn symbols_of_lines(lines: Seq<Seq<u8>>, first: bool) -> Seq<Seq<u8>>
    decreases lines.len(),
{
    if lines.len() == 0 {
        Seq::empty()
    } else {
        let head = match line_symbol_spec(lines[0], first) {
            Some(sym) => seq![sym],
            None => Seq::<Seq<u8>>::empty(),
        };
        head + symbols_of_lines(lines.drop_first(), false)
    }
}

/// The symbols a whole file contributes.
pub open spec fn symbols_spec(content: Seq<u8>) -> Seq<Seq<u8>> {
    symbols_of_lines(split_lines_spec(content), true)
}

/// Splitting never yields an empty line list.
proof fn lemma_split_lines_nonempty(s: Seq<u8>)
    ensures
        split_lines_spec(s).len() >= 1,
    decreases s.len(),
{
    if s.len() > 0 {
        lemma_split_lines_nonempty(s.drop_first());
    }
}

/// Where the first line feed of a sequence stands (at `j`, or absent with
/// `j` the length), the line split is that head segment followed by the
/// split of what comes after the line feed.
proof fn lemma_split_lines_head(s: Seq<u8>, j: int)
    requires
        0 <= j <= s.len(),
        forall|k: int| 0 <= k < j ==> s[k] != 10,
        j < s.len() ==> s[j] == 10,
    ensures
        j < s.len() ==> split_lines_spec(s) == seq![s.take(j)] + split_lines_spec(s.skip(j + 1)),
        j == s.len() ==> split_lines_spec(s) == seq![s],
    decreases j,
{
    lemma_split_lines_nonempty(s);
    if s.len() == 0 {
        assert(s =~= Seq::<u8>::empty());
        assert(split_lines_spec(s) =~= seq![s]);
    } else if j == 0 {
        if j < s.len() {
            assert(s.take(0) =~= Seq::<u8>::empty());
            assert(s.skip(1) =~= s.drop_first());
            assert(split_lines_spec(s) =~= seq![s.take(0)] + split_lines_spec(s.skip(1)));
        }
    } else {
        let d = s.drop_first();
        lemma_split_lines_head(d, j - 1);
        lemma_split_lines_nonempty(d);
        if j < s.len() {
            assert(d.take(j - 1) =~= s.take(j).drop_first());
            assert(split_lines_spec(d) == seq![d.take(j - 1)] + split_lines_spec(d.skip(j)));
            assert(split_lines_spec(d)[0] == d.take(j - 1));
            assert(seq![s[0]] + split_lines_spec(d)[0] =~= s.take(j));
            assert(split_lines_spec(d).drop_first() =~= split_lines_spec(d.skip(j)));
            assert(d.skip(j) =~= s.skip(j + 1));
            assert(split_lines_spec(s) =~= seq![s.take(j)] + split_lines_spec(s.skip(j + 1)));
        } else {
            assert(split_lines_spec(d) == seq![d]);
            assert(seq![s[0]] + d =~= s);
            assert(split_lines_spec(d).drop_first() =~= Seq::<Seq<u8>>::empty());
            assert(split_lines_spec(s) =~= seq![s]);
        }
    }
}

/// Where the first comma of a line stands (at `j`, or absent with `j` the
/// length), the first field is everything before it.
proof fn lemma_first_field(s: Seq<u8>, j: int)
    requires
        0 <= j <= s.len(),
        forall|k: int| 0 <= k < j ==> s[k] != 44,
        j < s.len() ==> s[j] == 44,
    ensures
        first_field_spec(s) == s.take(j),
    decreases j,
{
    if s.len() == 0 {
        assert(first_field_spec(s) =~= s.take(j));
    } else if j == 0 {
        assert(first_field_spec(s) =~= s.take(0));
    } else {
        let d = s.drop_first();
        lemma_first_field(d, j - 1);
        assert(d.take(j - 1) =~= s.take(j).drop_first());
        assert(first_field_spec(s) =~= seq![s[0]] + d.take(j - 1));
        assert(seq![s[0]] + d.take(j - 1) =~= s.take(j));
    }
}

/// Finds the trimmed part of `s` between `start` and `end`: the returned
/// bounds hold exactly the range with its blank margins dropped.
fn trim_range(s: &[u8], start: usize, end: usize) -> (r: (usize, usize))
    requires
        start <= end <= s@.len(),
    ensures
        start <= r.0 <= r.1 <= end,
        s@.subrange(r.0 as int, r.1 as int) == trim_spec(s@.subrange(start as int, end as int)),
{
    let mut a = start;
    while a < end && (s[a] == 32 || (9 <= s[a] && s[a] <= 13))
        invariant
            start <= a <= end <= s@.len(),
            trim_front_spec(s@.subrange(start as int, end as int)) == trim_front_spec(
                s@.subrange(a as int, end as int),
            ),
        decreases end - a,
    {
        proof {
            assert(s@.subrange(a as int, end as int).drop_first() =~= s@.subrange(
                a + 1,
                end as int,
            ));
        }
        a = a + 1;
    }
    proof {
        assert(trim_front_spec(s@.subrange(a as int, end as int)) == s@.subrange(
            a as int,
            end as int,
        ));
    }
    let mut b = end;
    while b > a && (s[b - 1] == 32 || (9 <= s[b - 1] && s[b - 1] <= 13))
        invariant
            a <= b <= end <= s@.len(),
            trim_back_spec(s@.subrange(a as int, end as int)) == trim_back_spec(
                s@.subrange(a as int, b as int),
            ),
        decreases b,
    {
        proof {
            assert(s@.subrange(a as int, b as int).drop_last() =~= s@.subrange(a as int, b - 1));
        }
        b = b - 1;
    }
    proof {
        assert(trim_back_spec(s@.subrange(a as int, b as int)) == s@.subrange(a as int, b as int));
    }
    (a, b)
}

/// Copies the bytes between two bounds into an owned vector.
fn copy_range(s: &[u8], start: usize, end: usize) -> (r: Vec<u8>)
    requires
        start <= end <= s@.len(),
    ensures
        r@ == s@.subrange(start as int, end as int),
{
    let mut r: Vec<u8> = Vec::new();
    let mut i = start;
    while i < end
        invariant
            start <= i <= end <= s@.len(),
            r@ == s@.subrange(start as int, i as int),
        decreases end - i,
    {
        r.push(s[i]);
        proof {
            assert(r@ =~= s@.subrange(start as int, i + 1));
        }
        i = i + 1;
    }
    r
}

/// Lowers an ASCII capital letter.
fn lower(b: u8) -> (r: u8)
    ensures
        r == lower_byte(b),
{
    if 65 <= b && b <= 90 {
        b + 32
    } else {
        b
    }
}

/// Whether the trimmed range is the table's header line.
fn is_header_range(s: &[u8], start: usize, end: usize) -> (r: bool)
    requires
        start <= end <= s@.len(),
    ensures
        r == is_header(s@.subrange(start as int, end as int)),
{
    if end - start < 6 {
        return false;
    }
    let r = lower(s[start]) == 115 && lower(s[start + 1]) == 121 && lower(s[start + 2]) == 109
        && lower(s[start + 3]) == 98 && lower(s[start + 4]) == 111 && lower(s[start + 5]) == 108;
    proof {
        let t = s@.subrange(start as int, end as int);
        assert(t[0] == s@[start as int]);
        assert(t[1] == s@[start as int + 1]);
        assert(t[2] == s@[start as int + 2]);
        assert(t[3] == s@[start as int + 3]);
        assert(t[4] == s@[start as int + 4]);
        assert(t[5] == s@[start as int + 5]);
    }
    r
}

/// The symbol one line of the file contributes, if any.
fn line_symbol(line: &[u8], first: bool) -> (r: Option<Vec<u8>>)
    ensures
        match r {
            Some(v) => line_symbol_spec(line@, first) == Some(v@),
            None => line_symbol_spec(line@, first) is None,
        },
{
    proof {
        assert(line@.subrange(0, line@.len() as int) =~= line@);
    }
    let (a, b) = trim_range(line, 0, line.len());
    if a == b {
        proof {
            assert(trim_spec(line@) =~= Seq::<u8>::empty());
        }
        return None;
    }
    if first && is_header_range(line, a, b) {
        return None;
    }
    let mut j = a;
    while j < b && line[j] != 44
        invariant
            a <= j <= b <= line@.len(),
            forall|k: int| a <= k < j ==> line@[k] != 44,
        decreases b - j,
    {
        j = j + 1;
    }
    proof {
        let t = line@.subrange(a as int, b as int);
        assert forall|k: int| 0 <= k < j - a implies t[k] != 44 by {
            assert(t[k] == line@[a + k]);
        }
        if j < b {
            assert(t[j - a] == line@[j as int]);
        }
        lemma_first_field(t, j - a);
        assert(t.take(j - a) =~= line@.subrange(a as int, j as int));
    }
    let (fa, fb) = trim_range(line, a, j);
    if fa == fb {
        proof {
            assert(trim_spec(first_field_spec(trim_spec(line@))) =~= Seq::<u8>::empty());
        }
        None
    } else {
        Some(copy_range(line, fa, fb))
    }
}

/// Reads the symbols out of the file's bytes: for each line, in order,
/// the trimmed first column, skipping blank lines, a leading header line,
/// and lines whose first column is blank.
pub fn parse_symbols(content: &[u8]) -> (r: Vec<Vec<u8>>)
    ensures
        r@.map_values(|v: Vec<u8>| v@) == symbols_spec(content@),
{
    let mut r: Vec<Vec<u8>> = Vec::new();
    let mut pos: usize = 0;
    let mut first = true;
    let ghost whole = split_lines_spec(content@);
    proof {
        assert(content@.skip(0) =~= content@);
        assert(r@.map_values(|v: Vec<u8>| v@) =~= Seq::<Seq<u8>>::empty());
        assert(Seq::<Seq<u8>>::empty() + symbols_of_lines(split_lines_spec(content@), true)
            =~= symbols_spec(content@));
    }
    loop
        invariant
            pos <= content@.len(),
            whole == split_lines_spec(content@),
            first ==> pos == 0 && r@.len() == 0,
            r@.map_values(|v: Vec<u8>| v@) + symbols_of_lines(
                split_lines_spec(content@.skip(pos as int)),
                first,
            ) == symbols_spec(content@),
        decreases content@.len() - pos, if first {
            1int
        } else {
            0int
        },
    {
        let mut j = pos;
        while j < content.len() && content[j] != 10
            invariant
                pos <= j <= content@.len(),
                forall|k: int| pos <= k < j ==> content@[k] != 10,
            decreases content@.len() - j,
        {
            j = j + 1;
        }
        let ghost tail = content@.skip(pos as int);
        proof {
            assert forall|k: int| 0 <= k < j - pos implies tail[k] != 10 by {
                assert(tail[k] == content@[pos + k]);
            }
            if j < content@.len() {
                assert(tail[j - pos] == content@[j as int]);
            }
            lemma_split_lines_head(tail, j - pos);
            assert(tail.take(j - pos) =~= content@.subrange(pos as int, j as int));
        }
        let line = copy_range(content, pos, j);
        let ghost before = r@.map_values(|v: Vec<u8>| v@);
        match line_symbol(line.as_slice(), first) {
            Some(sym) => {
                r.push(sym);
                proof {
                    assert(r@.map_values(|v: Vec<u8>| v@) =~= before + seq![line_symbol_spec(
                        line@,
                        first,
                    )->0]);
                }
            },
            None => {},
        }
        if j == content.len() {
            proof {
                assert(split_lines_spec(tail) == seq![tail]);
                assert(tail =~= content@.subrange(pos as int, j as int));
                assert(split_lines_spec(tail)[0] == tail);
                assert(split_lines_spec(tail).drop_first() =~= Seq::<Seq<u8>>::empty());
                assert(symbols_of_lines(Seq::<Seq<u8>>::empty(), false) =~= Seq::<Seq<u8>>::empty());
                assert(symbols_of_lines(split_lines_spec(tail), first) =~= match line_symbol_spec(
                    tail,
                    first,
                ) {
                    Some(sym) => seq![sym],
                    None => Seq::<Seq<u8>>::empty(),
                });
                assert(r@.map_values(|v: Vec<u8>| v@) =~= symbols_spec(content@));
            }
            return r;
        }
        proof {
            assert(split_lines_spec(tail) == seq![tail.take(j - pos)] + split_lines_spec(
                tail.skip(j - pos + 1),
            ));
            assert(split_lines_spec(tail)[0] == tail.take(j - pos));
            assert(split_lines_spec(tail).drop_first() =~= split_lines_spec(
                tail.skip(j - pos + 1),
            ));
            assert(tail.skip(j - pos + 1) =~= content@.skip(j + 1));
        }
        pos = j + 1;
        first = false;
    }
}

} // verus!
