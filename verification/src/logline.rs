//! Log-line maintenance.
//!
//! The surrounding program keeps a rolling log file.  The pure part of
//! that upkeep lives here: stamping a message, condensing a repeated
//! line into a `(n)` counter, capping the log at its last five hundred
//! lines, and rendering the lines back to one text.  Reading and writing
//! the file, and producing the timestamp, stay with the caller.
//!
//! A stamped line has the shape `[timestamp] message`; the message of a
//! line is what stands between the first `]` and the next `]` or the end
//! of the line, with surrounding ASCII whitespace trimmed.  Repetition
//! counters are read by taking the line's last space-separated token,
//! dropping every parenthesis in it, and reading the rest as a decimal
//! number.

use vstd::prelude::*;
use vstd::string::StrSliceExecFns;
use vstd::string::StringExecFns;

use crate::scan::{find_from, find_in, lemma_find_from, matches_at};
use crate::text::{push_chars, str_chars, string_from_chars, subvec, vec_chars_eq};

verus! {

/// ASCII whitespace, as trimming understands it.
pub open spec fn is_space(c: char) -> bool {
    c == ' ' || c == '\t' || c == '\r' || c == '\n'
}

fn is_space_exec(c: char) -> (r: bool)
    ensures
        r == is_space(c),
{
    c == ' ' || c == '\t' || c == '\r' || c == '\n'
}

/// A decimal digit.
pub open spec fn is_digit(c: char) -> bool {
    '0' <= c && c <= '9'
}

/// The sequence without its leading whitespace.
pub open spec fn trim_front(s: Seq<char>) -> Seq<char>
    decreases s.len(),
{
    if s.len() > 0 && is_space(s[0]) {
        trim_front(s.drop_first())
    } else {
        s
    }
}

/// The sequence without its trailing whitespace.
pub open spec fn trim_back(s: Seq<char>) -> Seq<char>
    decreases s.len(),
{
    if s.len() > 0 && is_space(s.last()) {
        trim_back(s.drop_last())
    } else {
        s
    }
}

/// The sequence without surrounding whitespace.
pub open spec fn trim(s: Seq<char>) -> Seq<char> {
    trim_back(trim_front(s))
}

/// The trimmed characters of `v` between `lo` and `hi`.
fn trim_subvec(v: &Vec<char>, lo: usize, hi: usize) -> (r: Vec<char>)
    requires
        lo <= hi <= v@.len(),
    ensures
        r@ == trim(v@.subrange(lo as int, hi as int)),
{
    let ghost orig = v@.subrange(lo as int, hi as int);
    let mut a = lo;
    while a < hi && is_space_exec(v[a])
        invariant
            lo <= a <= hi <= v@.len(),
            trim_front(orig) == trim_front(v@.subrange(a as int, hi as int)),
        decreases hi - a,
    {
        proof {
            assert(v@.subrange(a as int, hi as int).drop_first() =~= v@.subrange(a + 1, hi as int));
        }
        a += 1;
    }
    proof {
        assert(trim_front(orig) == v@.subrange(a as int, hi as int));
    }
    let mut b = hi;
    while b > a && is_space_exec(v[b - 1])
        invariant
            lo <= a <= b <= hi <= v@.len(),
            trim_back(v@.subrange(a as int, hi as int)) == trim_back(
                v@.subrange(a as int, b as int),
            ),
        decreases b - a,
    {
        proof {
            assert(v@.subrange(a as int, b as int).drop_last() =~= v@.subrange(a as int, b - 1));
        }
        b -= 1;
    }
    proof {
        assert(trim_back(v@.subrange(a as int, hi as int)) == v@.subrange(a as int, b as int));
    }
    subvec(v, a, b)
}

/// The message of a stamped line: the trimmed text between the first `]`
/// and the second `]` or the end.  `None` when the line has no `]`.
pub open spec fn line_text(line: Seq<char>) -> Option<Seq<char>> {
    match find_from(line, seq![']'], 0, false) {
        None => None,
        Some(i) => Some(
            match find_from(line, seq![']'], i + 1, false) {
                Some(j) => trim(line.subrange(i + 1, j)),
                None => trim(line.subrange(i + 1, line.len() as int)),
            },
        ),
    }
}

fn line_text_exec(v: &Vec<char>) -> (r: Option<Vec<char>>)
    ensures
        match r {
            Some(t) => line_text(v@) == Some(t@),
            None => line_text(v@) is None,
        },
{
    let mut sep: Vec<char> = Vec::new();
    sep.push(']');
    proof {
        assert(sep@ =~= seq![']']);
    }
    let n = v.len();
    let i = match find_in(v, &sep, 0, false) {
        Some(i) => i,
        None => {
            return None;
        },
    };
    proof {
        lemma_find_from(v@, sep@, 0, false);
        assert(i + 1 <= n);
    }
    match find_in(v, &sep, i + 1, false) {
        Some(j) => {
            proof {
                lemma_find_from(v@, sep@, i + 1, false);
            }
            Some(trim_subvec(v, i + 1, j))
        },
        None => Some(trim_subvec(v, i + 1, v.len())),
    }
}

/// The last space-separated token: everything after the last space, or
/// the whole sequence when there is none.
pub open spec fn rfind_space(s: Seq<char>) -> Option<int>
    decreases s.len(),
{
    if s.len() == 0 {
        None
    } else if s[s.len() - 1] == ' ' {
        Some(s.len() - 1)
    } else {
        rfind_space(s.drop_last())
    }
}

/// See [`rfind_space`].
pub open spec fn last_token(s: Seq<char>) -> Seq<char> {
    match rfind_space(s) {
        Some(i) => s.subrange(i + 1, s.len() as int),
        None => s,
    }
}

fn last_token_exec(v: &Vec<char>) -> (r: Vec<char>)
    ensures
        r@ == last_token(v@),
{
    let n = v.len();
    let mut j = n;
    proof {
        assert(v@.take(n as int) =~= v@);
    }
    while j > 0
        invariant
            j <= n == v@.len(),
            rfind_space(v@) == rfind_space(v@.take(j as int)),
        decreases j,
    {
        if v[j - 1] == ' ' {
            proof {
                assert(v@.take(j as int).last() == v@[j - 1]);
            }
            return subvec(v, j, n);
        }
        proof {
            assert(v@.take(j as int).drop_last() =~= v@.take(j - 1));
        }
        j -= 1;
    }
    proof {
        assert(v@.take(0) =~= Seq::<char>::empty());
        assert(rfind_space(v@) is None);
    }
    subvec(v, 0, n)
}

/// The sequence with every parenthesis removed.
pub open spec fn strip_parens(s: Seq<char>) -> Seq<char>
    decreases s.len(),
{
    if s.len() == 0 {
        Seq::empty()
    } else if s[0] == '(' || s[0] == ')' {
        strip_parens(s.drop_first())
    } else {
        seq![s[0]] + strip_parens(s.drop_first())
    }
}

fn strip_parens_exec(v: &Vec<char>) -> (r: Vec<char>)
    ensures
        r@ == strip_parens(v@),
{
    let n = v.len();
    let mut out: Vec<char> = Vec::new();
    let mut i: usize = 0;
    proof {
        assert(v@.skip(0) =~= v@);
        assert(Seq::<char>::empty() + strip_parens(v@) =~= strip_parens(v@));
    }
    while i < n
        invariant
            i <= n == v@.len(),
            strip_parens(v@) == out@ + strip_parens(v@.skip(i as int)),
        decreases n - i,
    {
        let c = v[i];
        proof {
            assert(v@.skip(i as int)[0] == v@[i as int]);
            assert(v@.skip(i as int).drop_first() =~= v@.skip(i + 1));
        }
        if !(c == '(' || c == ')') {
            out.push(c);
            proof {
                assert(out@ + strip_parens(v@.skip(i + 1)) =~= out@.drop_last() + (seq![c]
                    + strip_parens(v@.skip(i + 1))));
            }
        }
        i += 1;
    }
    proof {
        assert(v@.skip(n as int) =~= Seq::<char>::empty());
        assert(out@ + strip_parens(v@.skip(n as int)) =~= out@);
    }
    out
}

/// The value of a run of decimal digits.
pub open spec fn digits_val(s: Seq<char>) -> int
    decreases s.len(),
{
    if s.len() == 0 {
        0
    } else {
        digits_val(s.drop_last()) * 10 + (s[s.len() - 1] as int - '0' as int)
    }
}

/// What reading a decimal number returns: the value, when the sequence
/// is one or more digits and the value fits.
pub open spec fn parse_u32_spec(s: Seq<char>) -> Option<u32> {
    if s.len() > 0 && (forall|i: int| 0 <= i < s.len() ==> is_digit(s[i])) && digits_val(s)
        <= u32::MAX {
        Some(digits_val(s) as u32)
    } else {
        None
    }
}

proof fn lemma_digits_val_nonneg(s: Seq<char>)
    requires
        forall|i: int| 0 <= i < s.len() ==> is_digit(s[i]),
    ensures
        digits_val(s) >= 0,
    decreases s.len(),
{
    if s.len() > 0 {
        lemma_digits_val_nonneg(s.drop_last());
    }
}

proof fn lemma_digits_val_monotone(s: Seq<char>, k: int)
    requires
        0 <= k <= s.len(),
        forall|i: int| 0 <= i < s.len() ==> is_digit(s[i]),
    ensures
        digits_val(s.take(k)) <= digits_val(s),
    decreases s.len() - k,
{
    if k < s.len() {
        lemma_digits_val_monotone(s, k + 1);
        lemma_digits_val_nonneg(s.take(k));
        assert(s.take(k + 1).drop_last() =~= s.take(k));
        assert(digits_val(s.take(k + 1)) == digits_val(s.take(k)) * 10 + (s[k] as int
            - '0' as int));
    } else {
        assert(s.take(k) =~= s);
    }
}

fn parse_u32(v: &Vec<char>) -> (r: Option<u32>)
    ensures
        r == parse_u32_spec(v@),
{
    let n = v.len();
    if n == 0 {
        return None;
    }
    let mut val: u32 = 0;
    let mut i: usize = 0;
    while i < n
        invariant
            i <= n == v@.len(),
            forall|k: int| 0 <= k < i ==> is_digit(v@[k]),
            val == digits_val(v@.take(i as int)),
        decreases n - i,
    {
        let c = v[i];
        if !('0' <= c && c <= '9') {
            proof {
                assert(!is_digit(v@[i as int]));
            }
            return None;
        }
        let d = c as u32 - 48;
        proof {
            assert(v@.take(i + 1).drop_last() =~= v@.take(i as int));
        }
        if val > (u32::MAX - d) / 10 {
            proof {
                if forall|k: int| 0 <= k < v@.len() ==> is_digit(v@[k]) {
                    lemma_digits_val_monotone(v@, i + 1);
                    assert(digits_val(v@.take(i + 1)) == val * 10 + d);
                    assert(digits_val(v@) > u32::MAX);
                }
            }
            return None;
        }
        val = val * 10 + d;
        i += 1;
    }
    proof {
        assert(v@.take(n as int) =~= v@);
    }
    Some(val)
}

/// The decimal digits of a positive number, empty for zero and below.
pub open spec fn dec_digits(n: int) -> Seq<char>
    decreases n,
{
    if n <= 0 {
        Seq::empty()
    } else {
        dec_digits(n / 10) + seq![(((48 + n % 10) as u32) as char)]
    }
}

/// The decimal rendering of a number.
pub open spec fn dec_of(n: int) -> Seq<char> {
    if n == 0 {
        seq!['0']
    } else {
        dec_digits(n)
    }
}

fn digit_char_exec(d: u32) -> (c: char)
    requires
        d < 10,
    ensures
        c as u32 == 48 + d,
{
    broadcast use vstd::utf8::char_u32_cast;

    match d {
        0 => '0',
        1 => '1',
        2 => '2',
        3 => '3',
        4 => '4',
        5 => '5',
        6 => '6',
        7 => '7',
        8 => '8',
        _ => '9',
    }
}

/// Render a number in decimal.
pub fn u32_string(n: u32) -> (r: String)
    ensures
        r@ == dec_of(n as int),
{
    if n == 0 {
        let s = "0".to_owned();
        proof {
            reveal_strlit("0");
            assert(s@ =~= seq!['0']);
        }
        return s;
    }
    let mut digits: Vec<char> = Vec::new();
    let mut m = n;
    while m > 0
        invariant
            dec_digits(n as int) == dec_digits(m as int) + digits@,
        decreases m,
    {
        let d = digit_char_exec(m % 10);
        digits.insert(0, d);
        proof {
            assert(seq![d] + digits@.drop_first() =~= digits@);
            assert(dec_digits(m as int) == dec_digits(m as int / 10) + seq![d]);
            assert(dec_digits(m as int / 10) + (seq![d] + digits@.drop_first()) =~= (dec_digits(
                m as int / 10,
            ) + seq![d]) + digits@.drop_first());
        }
        m = m / 10;
    }
    proof {
        assert(dec_digits(n as int) =~= digits@);
    }
    string_from_chars(&digits)
}

/// Does the sequence start with the prefix?
pub open spec fn starts_with(s: Seq<char>, prefix: Seq<char>) -> bool {
    matches_at(s, prefix, 0, false)
}

/// What condensing decides for a last line and a new line: whether the
/// new line repeats the last one, and the line to put in its place.
/// Lines without a `]` never condense; a repeated message gets ` (2)`;
/// a message already carrying a counter gets the counter read from the
/// last line's final token and increased by one.
pub open spec fn condense_spec(last: Seq<char>, new: Seq<char>) -> (bool, Seq<char>) {
    match line_text(last) {
        None => (false, new),
        Some(lt) => match line_text(new) {
            None => (false, new),
            Some(nt) => if lt == nt {
                (true, new + " (2)"@)
            } else if starts_with(lt, nt + " ("@) {
                match parse_u32_spec(strip_parens(last_token(lt))) {
                    Some(c) => if c < u32::MAX {
                        (true, new + " ("@ + dec_of(c as int + 1) + ")"@)
                    } else {
                        (false, new)
                    },
                    None => (false, new),
                }
            } else {
                (false, new)
            },
        },
    }
}

/// Decide whether `new_line` repeats `last_line`, and produce the line
/// to keep: the new line itself, or the new line with an increased
/// repetition counter.
pub fn condense_repetition(last_line: &str, new_line: &str) -> (r: (bool, String))
    ensures
        r.0 == condense_spec(last_line@, new_line@).0,
        r.1@ == condense_spec(last_line@, new_line@).1,
{
    let lastv = str_chars(last_line);
    let lt = match line_text_exec(&lastv) {
        Some(t) => t,
        None => {
            return (false, new_line.to_owned());
        },
    };
    let newv = str_chars(new_line);
    let nt = match line_text_exec(&newv) {
        Some(t) => t,
        None => {
            return (false, new_line.to_owned());
        },
    };
    if vec_chars_eq(&lt, &nt) {
        let mut s = new_line.to_owned();
        s.append(" (2)");
        return (true, s);
    }
    let mut prefix = subvec(&nt, 0, nt.len());
    push_chars(&mut prefix, " (");
    proof {
        assert(prefix@ =~= nt@ + " ("@);
    }
    let starts = match find_in(&lt, &prefix, 0, false) {
        Some(i) => {
            proof {
                lemma_find_from(lt@, prefix@, 0, false);
            }
            i == 0
        },
        None => {
            proof {
                lemma_find_from(lt@, prefix@, 0, false);
            }
            false
        },
    };
    if !starts {
        return (false, new_line.to_owned());
    }
    let token = last_token_exec(&lt);
    let stripped = strip_parens_exec(&token);
    match parse_u32(&stripped) {
        Some(c) => {
            if c < u32::MAX {
                let mut s = new_line.to_owned();
                s.append(" (");
                let ds = u32_string(c + 1);
                s.append(ds.as_str());
                s.append(")");
                (true, s)
            } else {
                (false, new_line.to_owned())
            }
        },
        None => (false, new_line.to_owned()),
    }
}

/// Ghost image of a line list.
pub open spec fn lines_view(ls: Seq<String>) -> Seq<Seq<char>> {
    ls.map_values(|s: String| s@)
}

/// What updating the log does: condense into the last line or append,
/// then keep only the last five hundred lines.
pub open spec fn updated_log_spec(lines: Seq<Seq<char>>, new: Seq<char>) -> Seq<Seq<char>> {
    let appended = if lines.len() == 0 {
        lines.push(new)
    } else {
        let c = condense_spec(lines.last(), new);
        if c.0 {
            lines.drop_last().push(c.1)
        } else {
            lines.push(new)
        }
    };
    if appended.len() > 500 {
        appended.skip(appended.len() - 500)
    } else {
        appended
    }
}

/// Add a stamped line to the log: condense a repetition into the last
/// line or append, and cap the log at its last five hundred lines.
pub fn updated_log_lines(lines: Vec<String>, new_line: &str) -> (r: Vec<String>)
    ensures
        lines_view(r@) == updated_log_spec(lines_view(lines@), new_line@),
{
    let ghost orig = lines_view(lines@);
    let mut lines = lines;
    let n = lines.len();
    if n == 0 {
        lines.push(new_line.to_owned());
        proof {
            assert(lines_view(lines@) =~= orig.push(new_line@));
        }
    } else {
        let (condensed, out) = condense_repetition(lines[n - 1].as_str(), new_line);
        proof {
            assert(orig.last() == lines@[n - 1]@);
        }
        if condensed {
            let _ = lines.pop();
            lines.push(out);
            proof {
                assert(lines_view(lines@) =~= orig.drop_last().push(
                    condense_spec(orig.last(), new_line@).1,
                ));
            }
        } else {
            lines.push(new_line.to_owned());
            proof {
                assert(lines_view(lines@) =~= orig.push(new_line@));
            }
        }
    }
    let len = lines.len();
    if len > 500 {
        let start = len - 500;
        let mut kept: Vec<String> = Vec::new();
        let mut i: usize = 0;
        while i < 500
            invariant
                i <= 500,
                len == lines@.len(),
                start + 500 == len,
                lines_view(kept@) == lines_view(lines@).subrange(
                    start as int,
                    start + i,
                ),
            decreases 500 - i,
        {
            let item = lines[start + i].clone();
            let ghost iv = item@;
            let ghost pre = kept@;
            proof {
                assert(iv == lines@[start + i]@);
            }
            kept.push(item);
            proof {
                assert(lines_view(kept@) =~= lines_view(pre).push(iv));
                assert(lines_view(pre).push(iv) =~= lines_view(lines@).subrange(
                    start as int,
                    start + i + 1,
                ));
            }
            i += 1;
        }
        proof {
            assert(lines_view(kept@) =~= lines_view(lines@).skip(start as int));
        }
        kept
    } else {
        lines
    }
}

/// The lines joined with newlines, without a trailing newline.
pub open spec fn joined(lines: Seq<Seq<char>>) -> Seq<char>
    decreases lines.len(),
{
    if lines.len() == 0 {
        Seq::empty()
    } else if lines.len() == 1 {
        lines[0]
    } else {
        lines[0] + "\n"@ + joined(lines.drop_first())
    }
}

/// The rendered log: the lines joined with newlines, with a trailing
/// newline whenever there is a line at all.
pub open spec fn rendered_log(lines: Seq<Seq<char>>) -> Seq<char> {
    if lines.len() > 0 {
        joined(lines) + "\n"@
    } else {
        Seq::empty()
    }
}

proof fn lemma_joined_push(ls: Seq<Seq<char>>, x: Seq<char>)
    ensures
        joined(ls.push(x)) == if ls.len() == 0 {
            x
        } else {
            joined(ls) + "\n"@ + x
        },
    decreases ls.len(),
{
    if ls.len() == 0 {
        assert(ls.push(x)[0] == x);
    } else if ls.len() == 1 {
        assert(ls.push(x).drop_first() =~= seq![x]);
        assert(ls.push(x)[0] == ls[0]);
        assert(joined(seq![x]) == x);
        assert(joined(ls.push(x)) == ls[0] + "\n"@ + joined(seq![x]));
    } else {
        assert(ls.push(x).drop_first() =~= ls.drop_first().push(x));
        lemma_joined_push(ls.drop_first(), x);
        assert(ls.push(x)[0] == ls[0]);
        assert(joined(ls.push(x)) == ls[0] + "\n"@ + joined(ls.drop_first().push(x)));
        assert(joined(ls) == ls[0] + "\n"@ + joined(ls.drop_first()));
        assert(joined(ls.push(x)) =~= joined(ls) + "\n"@ + x);
    }
}

/// Render the log lines to the text written back to the file.
pub fn render_log(lines: &Vec<String>) -> (r: String)
    ensures
        r@ == rendered_log(lines_view(lines@)),
{
    let n = lines.len();
    if n == 0 {
        return String::new();
    }
    let mut s = String::new();
    let mut i: usize = 0;
    while i < n
        invariant
            0 < n == lines@.len(),
            i <= n,
            i == 0 ==> s@ == Seq::<char>::empty(),
            i > 0 ==> s@ == joined(lines_view(lines@).take(i as int)),
        decreases n - i,
    {
        if i > 0 {
            s.append("\n");
        }
        s.append(lines[i].as_str());
        proof {
            assert(lines_view(lines@).take(i + 1) =~= lines_view(lines@).take(i as int).push(
                lines@[i as int]@,
            ));
            lemma_joined_push(lines_view(lines@).take(i as int), lines@[i as int]@);
        }
        i += 1;
    }
    s.append("\n");
    proof {
        assert(lines_view(lines@).take(n as int) =~= lines_view(lines@));
    }
    s
}

/// What stamping produces: an empty message stays empty, any other is
/// framed as `[timestamp] message`.
pub open spec fn stamped_spec(timestamp: Seq<char>, message: Seq<char>) -> Seq<char> {
    if message.len() == 0 {
        Seq::empty()
    } else {
        "["@ + timestamp + "] "@ + message
    }
}

/// Stamp a message with a timestamp.
pub fn stamped_line(timestamp: &str, message: &str) -> (r: String)
    ensures
        r@ == stamped_spec(timestamp@, message@),
{
    if message.is_empty() {
        return String::new();
    }
    let mut s = "[".to_owned();
    s.append(timestamp);
    s.append("] ");
    s.append(message);
    s
}

} // verus!
