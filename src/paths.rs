use chrono::Datelike;
use vstd::prelude::*;

use crate::error::cat;

verus! {

/// A day of the Gregorian calendar.
#[derive(Debug, Clone, Copy, PartialEq, Eq, Structural)]
pub struct CalendarDate {
    pub year: i32,
    pub month: u32,
    pub day: u32,
}

impl CalendarDate {
    pub open spec fn wf(self) -> bool {
        1 <= self.month <= 12 && 1 <= self.day <= 31
    }
}

/// Relies on chrono::Utc::now, read through Datelike::year, month and day:
/// today's date in UTC, with a month from 1 to 12 and a day from 1 to 31.
#[verifier::external_body]
fn today_utc() -> (r: CalendarDate)
    ensures
        r.wf(),
{
    let now = chrono::Utc::now();
    CalendarDate { year: now.year(), month: now.month(), day: now.day() }
}

pub open spec fn digit_char(d: nat) -> char {
    if d == 0 {
        '0'
    } else if d == 1 {
        '1'
    } else if d == 2 {
        '2'
    } else if d == 3 {
        '3'
    } else if d == 4 {
        '4'
    } else if d == 5 {
        '5'
    } else if d == 6 {
        '6'
    } else if d == 7 {
        '7'
    } else if d == 8 {
        '8'
    } else {
        '9'
    }
}

/// The decimal digits of `n`, without leading zeros.
pub open spec fn digits(n: nat) -> Seq<char>
    decreases n,
{
    if n < 10 {
        seq![digit_char(n)]
    } else {
        digits(n / 10).push(digit_char(n % 10))
    }
}

/// `s` with zeros in front, to at least `width` characters.
pub open spec fn zero_padded(s: Seq<char>, width: nat) -> Seq<char> {
    if s.len() >= width {
        s
    } else {
        Seq::new((width - s.len()) as nat, |i: int| '0') + s
    }
}

/// A year as `%Y` writes it: four digits at least, with a sign outside
/// the years 0 to 9999.
pub open spec fn year_text(y: int) -> Seq<char> {
    if 0 <= y <= 9999 {
        zero_padded(digits(y as nat), 4)
    } else if y < 0 {
        seq!['-'] + zero_padded(digits((-y) as nat), 4)
    } else {
        seq!['+'] + zero_padded(digits(y as nat), 4)
    }
}

impl CalendarDate {
    /// The date written `YYYY-MM-DD`.
    pub open spec fn iso_spec(self) -> Seq<char> {
        year_text(self.year as int) + seq!['-'] + zero_padded(digits(self.month as nat), 2)
            + seq!['-'] + zero_padded(digits(self.day as nat), 2)
    }
}

fn digit_text(d: u64) -> (r: &'static str)
    requires
        d < 10,
    ensures
        r@ == seq![digit_char(d as nat)],
{
    if d == 0 {
        proof {
            reveal_strlit("0");
        }
        "0"
    } else if d == 1 {
        proof {
            reveal_strlit("1");
        }
        "1"
    } else if d == 2 {
        proof {
            reveal_strlit("2");
        }
        "2"
    } else if d == 3 {
        proof {
            reveal_strlit("3");
        }
        "3"
    } else if d == 4 {
        proof {
            reveal_strlit("4");
        }
        "4"
    } else if d == 5 {
        proof {
            reveal_strlit("5");
        }
        "5"
    } else if d == 6 {
        proof {
            reveal_strlit("6");
        }
        "6"
    } else if d == 7 {
        proof {
            reveal_strlit("7");
        }
        "7"
    } else if d == 8 {
        proof {
            reveal_strlit("8");
        }
        "8"
    } else {
        proof {
            reveal_strlit("9");
        }
        "9"
    }
}

/// Appends the decimal digits of `n` to `out`.
fn push_digits(n: u64, out: &mut String)
    ensures
        final(out)@ == old(out)@ + digits(n as nat),
    decreases n,
{
    if n < 10 {
        out.append(digit_text(n));
    } else {
        push_digits(n / 10, out);
        out.append(digit_text(n % 10));
        proof {
            assert(final(out)@ =~= old(out)@ + digits(n as nat));
        }
    }
}

/// The decimal digits of `n`, with zeros in front to `width` characters.
fn padded_number(n: u64, width: usize) -> (r: String)
    ensures
        r@ == zero_padded(digits(n as nat), width as nat),
{
    let mut body = String::new();
    push_digits(n, &mut body);
    let len = body.as_str().unicode_len();
    let mut out = String::new();
    let mut k: usize = len;
    proof {
        reveal_strlit("0");
    }
    while k < width
        invariant
            len == digits(n as nat).len(),
            body@ == digits(n as nat),
            len <= k,
            k <= width || k == len,
            out@ =~= Seq::new((k - len) as nat, |i: int| '0'),
            "0"@ == seq!['0'],
        decreases width - k,
    {
        out.append("0");
        k = k + 1;
    }
    let r = out.concat(body.as_str());
    proof {
        if len >= width {
            assert(r@ =~= zero_padded(digits(n as nat), width as nat));
        } else {
            assert(k == width);
            assert(r@ =~= zero_padded(digits(n as nat), width as nat));
        }
    }
    r
}

impl CalendarDate {
    /// The date written `YYYY-MM-DD`, as `%Y-%m-%d` formats it.
    pub fn to_iso_string(&self) -> (r: String)
        ensures
            r@ == self.iso_spec(),
    {
        let y: i64 = self.year as i64;
        let mut out = if 0 <= y && y <= 9999 {
            padded_number(y as u64, 4)
        } else if y < 0 {
            cat("-", padded_number((-y) as u64, 4).as_str())
        } else {
            cat("+", padded_number(y as u64, 4).as_str())
        };
        proof {
            reveal_strlit("-");
            reveal_strlit("+");
        }
        out.append("-");
        let m = padded_number(self.month as u64, 2);
        out.append(m.as_str());
        out.append("-");
        let d = padded_number(self.day as u64, 2);
        out.append(d.as_str());
        proof {
            assert(out@ =~= self.iso_spec());
        }
        out
    }
}

/// The name a single path segment gives: none for an empty segment, `.`
/// or `..`.
pub open spec fn segment_name(seg: Seq<char>) -> Option<Seq<char>> {
    if seg.len() == 0 || seg == seq!['.'] || seg == seq!['.', '.'] {
        None
    } else {
        Some(seg)
    }
}

/// Reads `s` backwards, `seg` being the text already read of the current
/// segment: empty segments and `.` are passed over, and the first other
/// segment found gives the name.
pub open spec fn scan_name(s: Seq<char>, seg: Seq<char>) -> Option<Seq<char>>
    decreases s.len(),
{
    if s.len() == 0 {
        segment_name(seg)
    } else if s.last() == '/' {
        if seg.len() == 0 || seg == seq!['.'] {
            scan_name(s.drop_last(), Seq::empty())
        } else {
            segment_name(seg)
        }
    } else {
        scan_name(s.drop_last(), seq![s.last()] + seg)
    }
}

/// The last component of a `/`-separated path: trailing separators and `.`
/// components do not count, and a path that ends in `..`, or has no
/// component, has none.
pub open spec fn file_name_spec(s: Seq<char>) -> Option<Seq<char>> {
    scan_name(s, Seq::empty())
}

/// `rel` appended to `base`: `rel` itself when it is absolute or `base` is
/// empty, else the two with one separator between them.
pub open spec fn join_spec(base: Seq<char>, rel: Seq<char>) -> Seq<char> {
    if rel.len() > 0 && rel[0] == '/' {
        rel
    } else if base.len() == 0 {
        rel
    } else if base.last() == '/' {
        base + rel
    } else {
        base + seq!['/'] + rel
    }
}

/// The last component of `path`, as `Path::file_name` gives it.
pub fn file_name(path: &str) -> (r: Option<String>)
    ensures
        match r {
            Some(n) => file_name_spec(path@) == Some(n@),
            None => file_name_spec(path@) is None,
        },
{
    let ghost s = path@;
    let n = path.unicode_len();
    let mut i: usize = n;
    let mut end: usize = n;
    let mut done = false;
    proof {
        assert(s.subrange(0, n as int) =~= s);
        assert(s.subrange(n as int, n as int) =~= Seq::<char>::empty());
    }
    while i > 0 && !done
        invariant
            s == path@,
            n == s.len(),
            i <= end <= n,
            file_name_spec(s) == scan_name(s.subrange(0, i as int), s.subrange(i as int, end as int)),
            done ==> i > 0 && s[i - 1] == '/' && !(end == i || (end == i + 1 && s[i as int] == '.')),
        decreases 2 * i + (if done { 0int } else { 1int }),
    {
        let c = path.get_char(i - 1);
        let ghost pre = s.subrange(0, i as int);
        let ghost seg = s.subrange(i as int, end as int);
        assert(pre.drop_last() =~= s.subrange(0, i - 1));
        if c == '/' {
            let skip = end == i || (end == i + 1 && path.get_char(i) == '.');
            if skip {
                proof {
                    if end == i + 1 {
                        assert(seg =~= seq!['.']);
                    } else {
                        assert(seg.len() == 0);
                    }
                    assert(s.subrange(i - 1, i - 1) =~= Seq::<char>::empty());
                }
                i = i - 1;
                end = i;
            } else {
                proof {
                    if seg.len() == 1 {
                        assert(seg[0] == s[i as int]);
                        assert(seg != seq!['.']);
                    }
                }
                done = true;
            }
        } else {
            assert(seq![pre.last()] + seg =~= s.subrange(i - 1, end as int));
            i = i - 1;
        }
    }
    let ghost seg = s.subrange(i as int, end as int);
    proof {
        if i == 0 {
            assert(s.subrange(0, 0).len() == 0);
        } else {
            let pre = s.subrange(0, i as int);
            assert(pre.last() == '/');
            if seg.len() == 1 {
                assert(seg[0] == s[i as int]);
                assert(seg != seq!['.']);
            }
        }
    }
    let len = end - i;
    if len == 0 {
        return None;
    }
    let c0 = path.get_char(i);
    if len == 1 && c0 == '.' {
        assert(seg =~= seq!['.']);
        return None;
    }
    if len == 2 && c0 == '.' && path.get_char(i + 1) == '.' {
        assert(seg =~= seq!['.', '.']);
        return None;
    }
    proof {
        assert(seg[0] == c0);
        if len == 2 {
            assert(seg[1] == s[i + 1]);
        }
    }
    Some(String::from_str(path.substring_char(i, end)))
}

/// `rel` appended to `base`, as `Path::join` does it.
pub fn join_path(base: &str, rel: &str) -> (r: String)
    ensures
        r@ == join_spec(base@, rel@),
{
    let nb = base.unicode_len();
    let nr = rel.unicode_len();
    if nr > 0 && rel.get_char(0) == '/' {
        String::from_str(rel)
    } else if nb == 0 {
        String::from_str(rel)
    } else if base.get_char(nb - 1) == '/' {
        cat(base, rel)
    } else {
        proof {
            reveal_strlit("/");
        }
        let with_sep = cat(base, "/");
        with_sep.concat(rel)
    }
}

/// Where an archive of `source` with suffix `postfix` goes on `date`:
/// `<temp>/<YYYY-MM-DD>/<name of source><postfix>`; none when the source
/// path has no last component.
pub open spec fn output_path_spec(
    source: Seq<char>,
    temp: Seq<char>,
    postfix: Seq<char>,
    date: CalendarDate,
) -> Option<Seq<char>> {
    match file_name_spec(source) {
        Some(name) => Some(join_spec(join_spec(temp, date.iso_spec()), name + postfix)),
        None => None,
    }
}

/// The archive path for `source_folder` under `temp_folder` on `date`.
pub fn output_path_on(
    source_folder: &str,
    temp_folder: &str,
    postfix: &str,
    date: &CalendarDate,
) -> (r: Option<String>)
    ensures
        match r {
            Some(p) => output_path_spec(source_folder@, temp_folder@, postfix@, *date) == Some(p@),
            None => output_path_spec(source_folder@, temp_folder@, postfix@, *date) is None,
        },
{
    let name = match file_name(source_folder) {
        Some(n) => n,
        None => return None,
    };
    let day = date.to_iso_string();
    let dir = join_path(temp_folder, day.as_str());
    let file = cat(name.as_str(), postfix);
    Some(join_path(dir.as_str(), file.as_str()))
}

/// The archive path for `source_folder` under `temp_folder`, dated today in
/// UTC; none when the source path has no last component.
pub fn generate_output_path(source_folder: &str, temp_folder: &str, postfix: &str) -> (r: Option<
    String,
>)
    ensures
        r is Some <==> file_name_spec(source_folder@) is Some,
        match r {
            Some(p) => exists|d: CalendarDate|
                d.wf() && #[trigger] output_path_spec(source_folder@, temp_folder@, postfix@, d)
                    == Some(p@),
            None => true,
        },
{
    let today = today_utc();
    output_path_on(source_folder, temp_folder, postfix, &today)
}

} // verus!
