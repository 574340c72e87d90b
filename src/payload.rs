//! The request record and its text payload.
use vstd::prelude::*;

verus! {

/// The decimal digit for `d`.
pub open spec fn digit_char(d: nat) -> char
    recommends
        d < 10,
{
    seq!['0', '1', '2', '3', '4', '5', '6', '7', '8', '9'][d as int]
}

/// Base-10 rendering of `n`, most significant digit first, without leading zeros.
pub open spec fn decimal(n: nat) -> Seq<char>
    decreases n,
{
    if n < 10 {
        seq![digit_char(n)]
    } else {
        decimal(n / 10) + seq![digit_char(n % 10)]
    }
}

/// Appends the decimal rendering of `n` to `out`.
pub fn append_decimal(out: &mut String, n: u64)
    ensures
        final(out)@ == old(out)@ + decimal(n as nat),
    decreases n,
{
    if n >= 10 {
        append_decimal(out, n / 10);
    }
    let d: usize = (n % 10) as usize;
    let digits = "0123456789";
    proof {
        reveal_strlit("0123456789");
    }
    out.append(digits.substring_ascii(d, d + 1));
    assert(digits@.subrange(d as int, d + 1) =~= seq![digit_char(d as nat)]);
}

/// Lower-case hexadecimal digit for `d`.
pub open spec fn hex_digit(d: nat) -> char
    recommends
        d < 16,
{
    seq!['0', '1', '2', '3', '4', '5', '6', '7', '8', '9', 'a', 'b', 'c', 'd', 'e', 'f'][d as int]
}

/// A character that stands for itself inside a quoted string.
pub open spec fn is_plain(c: char) -> bool {
    c != '"' && c != '\\' && (c as u32) >= 0x20
}

/// How one character is written inside a quoted string: quote and backslash
/// are preceded by a backslash, control characters take their short escape
/// or a `\u00XX` form, everything else stands for itself.
pub open spec fn escaped_char(c: char) -> Seq<char> {
    if c == '"' {
        seq!['\\', '"']
    } else if c == '\\' {
        seq!['\\', '\\']
    } else if c == '\n' {
        seq!['\\', 'n']
    } else if c == '\r' {
        seq!['\\', 'r']
    } else if c == '\t' {
        seq!['\\', 't']
    } else if (c as u32) < 0x20 {
        seq!['\\', 'u', '0', '0', hex_digit((c as u32 / 16) as nat), hex_digit((c as u32 % 16) as nat)]
    } else {
        seq![c]
    }
}

/// The escaped form of a whole string, character by character.
pub open spec fn escaped(s: Seq<char>) -> Seq<char>
    decreases s.len(),
{
    if s.len() == 0 {
        Seq::empty()
    } else {
        escaped(s.drop_last()) + escaped_char(s.last())
    }
}

/// A string between double quotes, escaped.
pub open spec fn quoted(s: Seq<char>) -> Seq<char> {
    seq!['"'] + escaped(s) + seq!['"']
}

proof fn lemma_escaped_step(s: Seq<char>, k: int)
    requires
        0 <= k < s.len(),
    ensures
        escaped(s.subrange(0, k + 1)) == escaped(s.subrange(0, k)) + escaped_char(s[k]),
{
    assert(s.subrange(0, k + 1).drop_last() =~= s.subrange(0, k));
}

proof fn lemma_escaped_plain_run(s: Seq<char>, a: int, b: int)
    requires
        0 <= a <= b <= s.len(),
        forall|j: int| a <= j < b ==> is_plain(#[trigger] s[j]),
    ensures
        escaped(s.subrange(0, b)) == escaped(s.subrange(0, a)) + s.subrange(a, b),
    decreases b - a,
{
    if a < b {
        lemma_escaped_plain_run(s, a, b - 1);
        lemma_escaped_step(s, b - 1);
        assert(s.subrange(a, b) =~= s.subrange(a, b - 1).push(s[b - 1]));
    } else {
        assert(s.subrange(a, b) =~= Seq::<char>::empty());
    }
}

/// Appends the escaped form of a character that is not plain.
fn append_escape(out: &mut String, c: char)
    requires
        !is_plain(c),
    ensures
        final(out)@ == old(out)@ + escaped_char(c),
{
    if c == '"' {
        proof {
            reveal_strlit("\\\"");
        }
        out.append("\\\"");
    } else if c == '\\' {
        proof {
            reveal_strlit("\\\\");
        }
        out.append("\\\\");
    } else if c == '\n' {
        proof {
            reveal_strlit("\\n");
        }
        out.append("\\n");
    } else if c == '\r' {
        proof {
            reveal_strlit("\\r");
        }
        out.append("\\r");
    } else if c == '\t' {
        proof {
            reveal_strlit("\\t");
        }
        out.append("\\t");
    } else {
        let code: usize = c as u32 as usize;
        let hex = "0123456789abcdef";
        proof {
            reveal_strlit("\\u00");
            reveal_strlit("0123456789abcdef");
        }
        out.append("\\u00");
        out.append(hex.substring_ascii(code / 16, code / 16 + 1));
        out.append(hex.substring_ascii(code % 16, code % 16 + 1));
        assert(hex@.subrange((code / 16) as int, code / 16 + 1) =~= seq![hex_digit((code / 16) as nat)]);
        assert(hex@.subrange((code % 16) as int, code % 16 + 1) =~= seq![hex_digit((code % 16) as nat)]);
    }
}

/// Appends `s` between double quotes, escaped.
pub fn append_quoted(out: &mut String, s: &str)
    ensures
        final(out)@ == old(out)@ + quoted(s@),
{
    proof {
        reveal_strlit("\"");
    }
    out.append("\"");
    let ghost opened = out@;
    let n: usize = s.unicode_len();
    let mut run_start: usize = 0;
    let mut i: usize = 0;
    for c in it: s.chars()
        invariant
            n == s@.len(),
            it.seq() == s@,
            i == it.index(),
            run_start <= i <= n,
            out@ == opened + escaped(s@.subrange(0, run_start as int)),
            forall|j: int| run_start <= j < i ==> is_plain(#[trigger] s@[j]),
    {
        if !(c != '"' && c != '\\' && (c as u32) >= 0x20) {
            proof {
                lemma_escaped_plain_run(s@, run_start as int, i as int);
                lemma_escaped_step(s@, i as int);
            }
            out.append(s.substring_char(run_start, i));
            append_escape(out, c);
            run_start = i + 1;
        }
        i = i + 1;
    }
    proof {
        lemma_escaped_plain_run(s@, run_start as int, n as int);
        assert(s@.subrange(0, n as int) =~= s@);
    }
    out.append(s.substring_char(run_start, n));
    out.append("\"");
    assert(out@ =~= old(out)@ + quoted(s@));
}

/// The quoted items of `items`, separated by a comma and a space.
pub open spec fn joined(items: Seq<Seq<char>>) -> Seq<char>
    decreases items.len(),
{
    if items.len() == 0 {
        Seq::empty()
    } else if items.len() == 1 {
        quoted(items[0])
    } else {
        joined(items.drop_last()) + seq![',', ' '] + quoted(items.last())
    }
}

/// A list of strings written between square brackets.
pub open spec fn list_text(items: Seq<Seq<char>>) -> Seq<char> {
    seq!['['] + joined(items) + seq![']']
}

/// The payload handed to the backend:
/// `{"actions": [<quoted actions>], "timestamp": <decimal>}`.
pub open spec fn payload_text(actions: Seq<Seq<char>>, timestamp: u64) -> Seq<char> {
    "{\"actions\": "@ + list_text(actions) + ", \"timestamp\": "@ + decimal(timestamp as nat) + "}"@
}

/// Appends the list of `items` between square brackets.
pub fn append_list(out: &mut String, items: &Vec<String>)
    ensures
        final(out)@ == old(out)@ + list_text(items.deep_view()),
{
    proof {
        reveal_strlit("[");
        reveal_strlit("]");
    }
    out.append("[");
    let ghost opened = out@;
    let ghost all = items.deep_view();
    let mut i: usize = 0;
    while i < items.len()
        invariant
            i <= items.len(),
            all == items.deep_view(),
            out@ == opened + joined(all.subrange(0, i as int)),
        decreases items.len() - i,
    {
        if i > 0 {
            out.append(", ");
        }
        append_quoted(out, items[i].as_str());
        proof {
            let next = all.subrange(0, i + 1);
            assert(next.drop_last() =~= all.subrange(0, i as int));
            assert(next.last() == all[i as int]);
            assert(items[i as int]@ == all[i as int]);
            reveal_strlit(", ");
            assert(", "@ =~= seq![',', ' ']);
            assert(out@ =~= opened + joined(next));
        }
        i = i + 1;
    }
    assert(all.subrange(0, i as int) =~= all);
    out.append("]");
    assert(out@ =~= old(out)@ + list_text(all));
}

/// One request to the backend: the actions in the caller's order and the
/// second at which the request was made.
#[derive(Clone, Debug)]
pub struct ReqType {
    pub actions: Vec<String>,
    pub timestamp: u64,
}

impl ReqType {
    pub fn new(actions: Vec<String>, timestamp: u64) -> (r: ReqType)
        ensures
            r.actions@ == actions@,
            r.timestamp == timestamp,
    {
        ReqType { actions, timestamp }
    }

    /// Renders the request as the payload text the backend reads.
    pub fn to_backend_server_text(&self) -> (r: String)
        ensures
            r@ == payload_text(self.actions.deep_view(), self.timestamp),
    {
        let mut out = String::new();
        proof {
            reveal_strlit("{\"actions\": ");
            reveal_strlit(", \"timestamp\": ");
            reveal_strlit("}");
        }
        out.append("{\"actions\": ");
        append_list(&mut out, &self.actions);
        out.append(", \"timestamp\": ");
        append_decimal(&mut out, self.timestamp);
        out.append("}");
        assert(out@ =~= payload_text(self.actions.deep_view(), self.timestamp));
        out
    }
}

/// Each item between double quotes exactly as given, separated by a comma
/// and a space.
pub open spec fn joined_verbatim(items: Seq<Seq<char>>) -> Seq<char>
    decreases items.len(),
{
    if items.len() == 0 {
        Seq::empty()
    } else if items.len() == 1 {
        seq!['"'] + items[0] + seq!['"']
    } else {
        joined_verbatim(items.drop_last()) + seq![',', ' '] + seq!['"'] + items.last() + seq!['"']
    }
}

/// The payload layout written out literally:
/// `{"actions": ["a", "b"], "timestamp": 17}`.
pub open spec fn literal_payload(actions: Seq<Seq<char>>, timestamp: u64) -> Seq<char> {
    "{\"actions\": ["@ + joined_verbatim(actions) + "], \"timestamp\": "@ + decimal(timestamp as nat)
        + "}"@
}

/// Every character of every action stands for itself.
pub open spec fn all_plain(actions: Seq<Seq<char>>) -> bool {
    forall|i: int, j: int|
        0 <= i < actions.len() && 0 <= j < actions[i].len() ==> is_plain(#[trigger] actions[i][j])
}

/// A string of plain characters is its own escaped form.
pub proof fn lemma_escaped_plain(s: Seq<char>)
    requires
        forall|j: int| 0 <= j < s.len() ==> is_plain(#[trigger] s[j]),
    ensures
        escaped(s) == s,
{
    lemma_escaped_plain_run(s, 0, s.len() as int);
    assert(s.subrange(0, 0) =~= Seq::<char>::empty());
    assert(s.subrange(0, s.len() as int) =~= s);
}

proof fn lemma_joined_plain(items: Seq<Seq<char>>)
    requires
        all_plain(items),
    ensures
        joined(items) == joined_verbatim(items),
    decreases items.len(),
{
    if items.len() > 0 {
        let k = items.len() - 1;
        assert forall|j: int| 0 <= j < items[k].len() implies is_plain(#[trigger] items[k][j]) by {
            assert(is_plain(items[k][j]));
        }
        lemma_escaped_plain(items[k]);
        if items.len() == 1 {
            assert(joined(items) =~= joined_verbatim(items));
        } else {
            let rest = items.drop_last();
            assert forall|i: int, j: int| 0 <= i < rest.len() && 0 <= j < rest[i].len() implies is_plain(
                #[trigger] rest[i][j],
            ) by {
                assert(rest[i] == items[i]);
            }
            lemma_joined_plain(rest);
            assert(joined(items) =~= joined_verbatim(items));
        }
    }
}

/// When no action holds a quote, a backslash or a control character, the
/// payload is exactly the literal layout: each action verbatim between
/// double quotes, in order, and the timestamp in decimal.
pub proof fn lemma_payload_literal_layout(actions: Seq<Seq<char>>, timestamp: u64)
    requires
        all_plain(actions),
    ensures
        payload_text(actions, timestamp) == literal_payload(actions, timestamp),
{
    lemma_joined_plain(actions);
    reveal_strlit("{\"actions\": ");
    reveal_strlit("{\"actions\": [");
    reveal_strlit(", \"timestamp\": ");
    reveal_strlit("], \"timestamp\": ");
    assert(payload_text(actions, timestamp) =~= literal_payload(actions, timestamp));
}

/// The decimal rendering is a non-empty run of ASCII digits that starts with
/// `0` only for zero itself.
pub proof fn lemma_decimal_digits(n: nat)
    ensures
        decimal(n).len() > 0,
        forall|i: int| 0 <= i < decimal(n).len() ==> '0' <= #[trigger] decimal(n)[i] <= '9',
        decimal(n)[0] == '0' ==> n == 0,
    decreases n,
{
    if n >= 10 {
        lemma_decimal_digits(n / 10);
        let d = decimal(n);
        assert forall|i: int| 0 <= i < d.len() implies '0' <= #[trigger] d[i] <= '9' by {
            if i < decimal(n / 10).len() {
                assert(d[i] == decimal(n / 10)[i]);
            } else {
                assert(d[i] == digit_char(n % 10));
            }
        }
        assert(d[0] == decimal(n / 10)[0]);
    }
}

} // verus!
