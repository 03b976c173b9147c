//! The query log: one JSON line per executed query.
//!
//! The log stream's format is the library's own: an object holding the query
//! text as a JSON string and the response time in milliseconds, one document
//! per line. Rendering a line is verified down to the characters; writing
//! the rendered lines to the configured sink happens outside.

use vstd::prelude::*;
use vstd::string::StrSliceExecFns;
use vstd::string::StringExecFns;

verus! {

/// One per-query log entry, emitted once per executed query.
#[derive(Debug)]
pub struct QueryLog {
    /// The query text that was executed.
    pub query: String,
    /// How long the query took, in milliseconds.
    pub response_time_ms: u64,
}

/// The log writer's configuration: where the rendered lines go. `None`
/// means a discard sink.
#[derive(Debug)]
pub struct Logger {
    pub destination: Option<String>,
}

/// Decimal digit for a value below ten.
pub open spec fn dec_digit(n: int) -> char
    recommends
        0 <= n < 10,
{
    if n == 0 {
        '0'
    } else if n == 1 {
        '1'
    } else if n == 2 {
        '2'
    } else if n == 3 {
        '3'
    } else if n == 4 {
        '4'
    } else if n == 5 {
        '5'
    } else if n == 6 {
        '6'
    } else if n == 7 {
        '7'
    } else if n == 8 {
        '8'
    } else {
        '9'
    }
}

/// The usual decimal rendering of a non-negative number, without leading
/// zeros (a single zero for zero itself).
pub open spec fn dec_digits(n: int) -> Seq<char>
    recommends
        n >= 0,
    decreases n,
{
    if n < 10 {
        seq![dec_digit(n)]
    } else {
        dec_digits(n / 10).push(dec_digit(n % 10))
    }
}

/// Lowercase hexadecimal digit for a value below sixteen.
pub open spec fn hex_digit(n: int) -> char
    recommends
        0 <= n < 16,
{
    if n < 10 {
        dec_digit(n)
    } else if n == 10 {
        'a'
    } else if n == 11 {
        'b'
    } else if n == 12 {
        'c'
    } else if n == 13 {
        'd'
    } else if n == 14 {
        'e'
    } else {
        'f'
    }
}

/// How one character appears inside a JSON string literal: quote and
/// backslash are escaped, control characters become a universal escape, and
/// every other character stands as itself.
pub open spec fn esc_char(c: char) -> Seq<char> {
    if c == '"' {
        seq!['\\', '"']
    } else if c == '\\' {
        seq!['\\', '\\']
    } else if (c as u32) < 32 {
        seq!['\\', 'u', '0', '0', hex_digit(c as u32 as int / 16), hex_digit(c as u32 as int % 16)]
    } else {
        seq![c]
    }
}

/// A whole text as it appears inside a JSON string literal.
pub open spec fn json_escaped(s: Seq<char>) -> Seq<char>
    decreases s.len(),
{
    if s.len() == 0 {
        Seq::<char>::empty()
    } else {
        json_escaped(s.drop_last()) + esc_char(s.last())
    }
}

fn dec_digit_exec(n: u64) -> (c: char)
    requires
        n < 10,
    ensures
        c == dec_digit(n as int),
{
    if n == 0 {
        '0'
    } else if n == 1 {
        '1'
    } else if n == 2 {
        '2'
    } else if n == 3 {
        '3'
    } else if n == 4 {
        '4'
    } else if n == 5 {
        '5'
    } else if n == 6 {
        '6'
    } else if n == 7 {
        '7'
    } else if n == 8 {
        '8'
    } else {
        '9'
    }
}

fn hex_digit_exec(n: u32) -> (c: char)
    requires
        n < 16,
    ensures
        c == hex_digit(n as int),
{
    if n < 10 {
        dec_digit_exec(n as u64)
    } else if n == 10 {
        'a'
    } else if n == 11 {
        'b'
    } else if n == 12 {
        'c'
    } else if n == 13 {
        'd'
    } else if n == 14 {
        'e'
    } else {
        'f'
    }
}

fn u64_digits(n: u64) -> (v: Vec<char>)
    ensures
        v@ == dec_digits(n as int),
    decreases n,
{
    if n < 10 {
        let mut v: Vec<char> = Vec::new();
        v.push(dec_digit_exec(n));
        proof {
            assert(v@ =~= seq![dec_digit(n as int)]);
        }
        v
    } else {
        let mut v = u64_digits(n / 10);
        v.push(dec_digit_exec(n % 10));
        v
    }
}

fn push_esc_char(out: &mut Vec<char>, c: char)
    ensures
        final(out)@ == old(out)@ + esc_char(c),
{
    if c == '"' {
        out.push('\\');
        out.push('"');
    } else if c == '\\' {
        out.push('\\');
        out.push('\\');
    } else if (c as u32) < 32 {
        out.push('\\');
        out.push('u');
        out.push('0');
        out.push('0');
        out.push(hex_digit_exec((c as u32) / 16));
        out.push(hex_digit_exec((c as u32) % 16));
    } else {
        out.push(c);
    }
    proof {
        assert(out@ =~= old(out)@ + esc_char(c));
    }
}

fn escape_chars(s: &str) -> (out: Vec<char>)
    ensures
        out@ == json_escaped(s@),
{
    let n = s.unicode_len();
    let mut out: Vec<char> = Vec::new();
    let mut i: usize = 0;
    while i < n
        invariant
            i <= n,
            n == s@.len(),
            out@ == json_escaped(s@.take(i as int)),
        decreases n - i,
    {
        let c = s.get_char(i);
        push_esc_char(&mut out, c);
        proof {
            assert(s@.take(i as int + 1).drop_last() =~= s@.take(i as int));
            assert(s@.take(i as int + 1).last() == s@[i as int]);
        }
        i = i + 1;
    }
    proof {
        assert(s@.take(n as int) =~= s@);
    }
    out
}

/// Relies on String's FromIterator over chars (through Iterator::collect):
/// the collected string holds exactly the characters of the vector, in
/// order.
#[verifier::external_body]
fn chars_to_string(v: &Vec<char>) -> (r: String)
    ensures
        r@ == v@,
{
    v.iter().collect()
}

impl QueryLog {
    /// The log line for this entry, character by character.
    pub open spec fn line_spec(self) -> Seq<char> {
        "{\"query\":\""@ + json_escaped(self.query@) + "\",\"response_time\":"@ + dec_digits(
            self.response_time_ms as int,
        ) + "}"@
    }

    /// Render this entry as its log line.
    pub fn to_json_line(&self) -> (r: String)
        ensures
            r@ == self.line_spec(),
    {
        let mut s = String::from_str("{\"query\":\"");
        let esc = escape_chars(self.query.as_str());
        let esc_s = chars_to_string(&esc);
        s.append(esc_s.as_str());
        s.append("\",\"response_time\":");
        let digits = u64_digits(self.response_time_ms);
        let digits_s = chars_to_string(&digits);
        s.append(digits_s.as_str());
        s.append("}");
        s
    }
}

proof fn lemma_dec_digit_no_newline(n: int)
    ensures
        dec_digit(n) != '\n',
{
}

proof fn lemma_hex_digit_no_newline(n: int)
    ensures
        hex_digit(n) != '\n',
{
    lemma_dec_digit_no_newline(n);
}

proof fn lemma_esc_char_no_newline(c: char, j: int)
    requires
        0 <= j < esc_char(c).len(),
    ensures
        esc_char(c)[j] != '\n',
{
    if c == '"' || c == '\\' {
    } else if (c as u32) < 32 {
        lemma_hex_digit_no_newline(c as u32 as int / 16);
        lemma_hex_digit_no_newline(c as u32 as int % 16);
    } else {
        assert(('\n' as u32) < 32);
    }
}

proof fn lemma_escaped_no_newline(s: Seq<char>, j: int)
    requires
        0 <= j < json_escaped(s).len(),
    ensures
        json_escaped(s)[j] != '\n',
    decreases s.len(),
{
    if s.len() > 0 {
        let pre = json_escaped(s.drop_last());
        if j < pre.len() {
            lemma_escaped_no_newline(s.drop_last(), j);
        } else {
            lemma_esc_char_no_newline(s.last(), j - pre.len());
        }
    }
}

proof fn lemma_digits_no_newline(n: int, j: int)
    requires
        0 <= j < dec_digits(n).len(),
    ensures
        dec_digits(n)[j] != '\n',
    decreases n,
{
    if n < 10 {
        lemma_dec_digit_no_newline(n);
    } else {
        let pre = dec_digits(n / 10);
        if j < pre.len() {
            lemma_digits_no_newline(n / 10, j);
        } else {
            lemma_dec_digit_no_newline(n % 10);
        }
    }
}

/// A rendered log line holds no newline of its own: escaping keeps the query
/// text on one line, so the newline appended after each document is the only
/// one, and the log stream stays one document per line.
pub proof fn lemma_line_spec_single_line(entry: QueryLog, i: int)
    requires
        0 <= i < entry.line_spec().len(),
    ensures
        entry.line_spec()[i] != '\n',
{
    reveal_strlit("{\"query\":\"");
    reveal_strlit("\",\"response_time\":");
    reveal_strlit("}");
    let a = "{\"query\":\""@;
    let b = json_escaped(entry.query@);
    let c = "\",\"response_time\":"@;
    let d = dec_digits(entry.response_time_ms as int);
    let e = "}"@;
    assert(forall|k: int| 0 <= k < a.len() ==> a[k] != '\n');
    assert(forall|k: int| 0 <= k < c.len() ==> c[k] != '\n');
    assert(forall|k: int| 0 <= k < e.len() ==> e[k] != '\n');
    if i < a.len() {
    } else if i < a.len() + b.len() {
        lemma_escaped_no_newline(entry.query@, i - a.len());
    } else if i < a.len() + b.len() + c.len() {
    } else if i < a.len() + b.len() + c.len() + d.len() {
        lemma_digits_no_newline(entry.response_time_ms as int, i - a.len() - b.len() - c.len());
    }
}

impl Logger {
    pub fn new(log: &Option<String>) -> (l: Logger)
        ensures
            log is None ==> l.destination is None,
            log matches Some(d) ==> l.destination matches Some(d2) && d2@ == d@,
    {
        Logger {
            destination: match log {
                Some(d) => Some(d.clone()),
                None => None,
            },
        }
    }

    /// Render the line that is written to the sink for one entry: the
    /// entry's JSON document followed by a newline.
    pub fn render_entry(&self, entry: &QueryLog) -> (r: String)
        ensures
            r@ == entry.line_spec().push('\n'),
    {
        let mut s = entry.to_json_line();
        s.append("\n");
        proof {
            reveal_strlit("\n");
            assert(s@ =~= entry.line_spec().push('\n'));
        }
        s
    }
}

} // verus!
