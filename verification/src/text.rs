use vstd::prelude::*;
use vstd::string::StrSliceExecFns;
use vstd::string::StringExecFns;

verus! {

/// The characters that Unicode gives the property White_Space.
pub open spec fn is_space(c: char) -> bool {
    let n = c as u32;
    ||| 0x09 <= n <= 0x0d
    ||| n == 0x20
    ||| n == 0x85
    ||| n == 0xa0
    ||| n == 0x1680
    ||| 0x2000 <= n <= 0x200a
    ||| n == 0x2028
    ||| n == 0x2029
    ||| n == 0x202f
    ||| n == 0x205f
    ||| n == 0x3000
}

/// Tells whether a character is white space.
pub fn is_space_char(c: char) -> (space: bool)
    ensures
        space == is_space(c),
{
    let n: u32 = c as u32;
    (0x09 <= n && n <= 0x0d) || n == 0x20 || n == 0x85 || n == 0xa0 || n == 0x1680 || (0x2000 <= n
        && n <= 0x200a) || n == 0x2028 || n == 0x2029 || n == 0x202f || n == 0x205f || n == 0x3000
}

/// The text without the white space at its start.
pub open spec fn trimmed_start(s: Seq<char>) -> Seq<char>
    decreases s.len(),
{
    if s.len() > 0 && is_space(s.first()) {
        trimmed_start(s.drop_first())
    } else {
        s
    }
}

/// The text without the white space at its end.
pub open spec fn trimmed_end(s: Seq<char>) -> Seq<char>
    decreases s.len(),
{
    if s.len() > 0 && is_space(s.last()) {
        trimmed_end(s.drop_last())
    } else {
        s
    }
}

/// The text without the white space at its start and at its end.
pub open spec fn trimmed(s: Seq<char>) -> Seq<char> {
    trimmed_end(trimmed_start(s))
}

/// Removes the white space at both ends of a text.
pub fn trim(s: &str) -> (out: String)
    ensures
        out@ == trimmed(s@),
{
    let n: usize = s.unicode_len();
    let mut start: usize = 0;
    proof {
        assert(s@.subrange(0, n as int) =~= s@);
    }
    while start < n && is_space_char(s.get_char(start))
        invariant
            0 <= start <= n,
            n == s@.len(),
            trimmed_start(s@) == trimmed_start(s@.subrange(start as int, n as int)),
        decreases n - start,
    {
        proof {
            let rest = s@.subrange(start as int, n as int);
            assert(rest.first() == s@[start as int]);
            assert(rest.drop_first() =~= s@.subrange(start + 1, n as int));
        }
        start = start + 1;
    }
    proof {
        let rest = s@.subrange(start as int, n as int);
        if start < n {
            assert(rest.first() == s@[start as int]);
        }
        assert(trimmed_start(s@) == rest);
    }
    let mut end: usize = n;
    while end > start && is_space_char(s.get_char(end - 1))
        invariant
            0 <= start <= end <= n,
            n == s@.len(),
            trimmed(s@) == trimmed_end(s@.subrange(start as int, end as int)),
        decreases end - start,
    {
        proof {
            let rest = s@.subrange(start as int, end as int);
            assert(rest.last() == s@[end - 1]);
            assert(rest.drop_last() =~= s@.subrange(start as int, end - 1));
        }
        end = end - 1;
    }
    proof {
        let rest = s@.subrange(start as int, end as int);
        if end > start {
            assert(rest.last() == s@[end - 1]);
        }
        assert(trimmed(s@) == rest);
    }
    s.substring_char(start, end).to_owned()
}

/// Whether `needle` stands in `hay` at position `i`.
pub open spec fn occurs_at(hay: Seq<char>, needle: Seq<char>, i: int) -> bool {
    0 <= i && i + needle.len() <= hay.len() && hay.subrange(i, i + needle.len()) == needle
}

/// Whether `needle` stands somewhere in `hay`.
pub open spec fn contains_text(hay: Seq<char>, needle: Seq<char>) -> bool {
    exists|i: int| occurs_at(hay, needle, i)
}

/// Tells whether `needle` stands in `hay` at position `i`, given the lengths
/// of both.
fn matches_at(hay: &str, hay_len: usize, needle: &str, needle_len: usize, i: usize) -> (found:
    bool)
    requires
        hay_len == hay@.len(),
        needle_len == needle@.len(),
    ensures
        found == occurs_at(hay@, needle@, i as int),
{
    if i > hay_len || needle_len > hay_len - i {
        return false;
    }
    let mut k: usize = 0;
    while k < needle_len
        invariant
            0 <= k <= needle_len,
            hay_len == hay@.len(),
            needle_len == needle@.len(),
            i + needle_len <= hay_len,
            forall|j: int| 0 <= j < k ==> hay@[i + j] == needle@[j],
        decreases needle_len - k,
    {
        if hay.get_char(i + k) != needle.get_char(k) {
            proof {
                assert(hay@.subrange(i as int, i + needle_len)[k as int] == hay@[i + k]);
            }
            return false;
        }
        k = k + 1;
    }
    proof {
        assert(hay@.subrange(i as int, i + needle_len) =~= needle@);
    }
    true
}

/// Tells whether `needle` stands somewhere in `hay`.
pub fn contains(hay: &str, needle: &str) -> (found: bool)
    ensures
        found == contains_text(hay@, needle@),
{
    let hay_len: usize = hay.unicode_len();
    let needle_len: usize = needle.unicode_len();
    let mut i: usize = 0;
    while i <= hay_len
        invariant
            0 <= i <= hay_len + 1,
            hay_len == hay@.len(),
            needle_len == needle@.len(),
            forall|j: int| 0 <= j < i ==> !occurs_at(hay@, needle@, j),
        decreases hay_len + 1 - i,
    {
        if matches_at(hay, hay_len, needle, needle_len, i) {
            return true;
        }
        if i == hay_len {
            return false;
        }
        i = i + 1;
    }
    false
}

/// The text after `prefix` has been taken from its start as often as it
/// stands there.
pub open spec fn without_prefixes(s: Seq<char>, prefix: Seq<char>) -> Seq<char>
    decreases s.len(),
{
    if prefix.len() > 0 && occurs_at(s, prefix, 0) {
        without_prefixes(s.skip(prefix.len() as int), prefix)
    } else {
        s
    }
}

/// The text after `suffix` has been taken from its end as often as it stands
/// there.
pub open spec fn without_suffixes(s: Seq<char>, suffix: Seq<char>) -> Seq<char>
    decreases s.len(),
{
    if suffix.len() > 0 && occurs_at(s, suffix, s.len() - suffix.len()) {
        without_suffixes(s.take(s.len() - suffix.len()), suffix)
    } else {
        s
    }
}

/// The text between the repeated `prefix` at its start and the repeated
/// `suffix` at the end of what is left.
pub open spec fn between(s: Seq<char>, prefix: Seq<char>, suffix: Seq<char>) -> Seq<char> {
    without_suffixes(without_prefixes(s, prefix), suffix)
}

/// Takes `prefix` from the start of a text as often as it stands there, and
/// then `suffix` from the end of the rest as often as it stands there.
pub fn strip_affixes(s: &str, prefix: &str, suffix: &str) -> (out: String)
    ensures
        out@ == between(s@, prefix@, suffix@),
{
    let n: usize = s.unicode_len();
    let p: usize = prefix.unicode_len();
    let q: usize = suffix.unicode_len();
    let mut start: usize = 0;
    proof {
        assert(s@.subrange(0, n as int) =~= s@);
    }
    while p > 0 && matches_at(s, n, prefix, p, start)
        invariant
            0 <= start <= n,
            n == s@.len(),
            p == prefix@.len(),
            without_prefixes(s@, prefix@) == without_prefixes(
                s@.subrange(start as int, n as int),
                prefix@,
            ),
        decreases n - start,
    {
        proof {
            let rest = s@.subrange(start as int, n as int);
            assert(rest.subrange(0, p as int) =~= s@.subrange(start as int, start + p));
            assert(occurs_at(rest, prefix@, 0));
            assert(rest.skip(p as int) =~= s@.subrange(start + p, n as int));
        }
        start = start + p;
    }
    proof {
        let rest = s@.subrange(start as int, n as int);
        if start + p <= n {
            assert(rest.subrange(0, p as int) =~= s@.subrange(start as int, start + p));
        }
        assert(p == 0 || !occurs_at(rest, prefix@, 0));
        assert(without_prefixes(s@, prefix@) == rest);
    }
    let mut end: usize = n;
    while q > 0 && end - start >= q && matches_at(s, n, suffix, q, end - q)
        invariant
            0 <= start <= end <= n,
            n == s@.len(),
            q == suffix@.len(),
            between(s@, prefix@, suffix@) == without_suffixes(
                s@.subrange(start as int, end as int),
                suffix@,
            ),
        decreases end - start,
    {
        proof {
            let rest = s@.subrange(start as int, end as int);
            assert(rest.subrange(rest.len() - q, rest.len() as int) =~= s@.subrange(
                end - q,
                end as int,
            ));
            assert(occurs_at(rest, suffix@, rest.len() - q));
            assert(rest.take(rest.len() - q) =~= s@.subrange(start as int, end - q));
        }
        end = end - q;
    }
    proof {
        let rest = s@.subrange(start as int, end as int);
        if end - start >= q {
            assert(rest.subrange(rest.len() - q, rest.len() as int) =~= s@.subrange(
                end - q,
                end as int,
            ));
        }
        assert(q == 0 || !occurs_at(rest, suffix@, rest.len() - q));
        assert(between(s@, prefix@, suffix@) == rest);
    }
    s.substring_char(start, end).to_owned()
}

/// The character of a decimal digit.
pub open spec fn digit_char(d: nat) -> char {
    if d == 0 {
        '0'
    } else if d == 1 {
        '1'
    } else if d == 2 {
        '2'
    } else if d == 3 {
        '3'
    } else if d == 4 {
        '4'
    } else if d == 5 {
        '5'
    } else if d == 6 {
        '6'
    } else if d == 7 {
        '7'
    } else if d == 8 {
        '8'
    } else {
        '9'
    }
}

/// A number in decimal notation, without leading zeros.
pub open spec fn decimal(n: nat) -> Seq<char>
    decreases n,
{
    if n < 10 {
        seq![digit_char(n)]
    } else {
        decimal(n / 10).push(digit_char(n % 10))
    }
}

/// The text of a decimal digit.
fn digit_text(d: usize) -> (text: &'static str)
    requires
        d < 10,
    ensures
        text@ == seq![digit_char(d as nat)],
{
    proof {
        reveal_strlit("0");
        reveal_strlit("1");
        reveal_strlit("2");
        reveal_strlit("3");
        reveal_strlit("4");
        reveal_strlit("5");
        reveal_strlit("6");
        reveal_strlit("7");
        reveal_strlit("8");
        reveal_strlit("9");
    }
    let text = if d == 0 {
        "0"
    } else if d == 1 {
        "1"
    } else if d == 2 {
        "2"
    } else if d == 3 {
        "3"
    } else if d == 4 {
        "4"
    } else if d == 5 {
        "5"
    } else if d == 6 {
        "6"
    } else if d == 7 {
        "7"
    } else if d == 8 {
        "8"
    } else {
        "9"
    };
    assert(text@ =~= seq![digit_char(d as nat)]);
    text
}

/// Writes a number in decimal notation.
pub fn decimal_text(n: usize) -> (out: String)
    ensures
        out@ == decimal(n as nat),
{
    let mut rest: usize = n;
    let mut out = String::new();
    while rest >= 10
        invariant
            decimal(n as nat) == decimal(rest as nat) + out@,
        decreases rest,
    {
        let d = digit_text(rest % 10);
        proof {
            assert(decimal(rest as nat) == decimal((rest / 10) as nat).push(
                digit_char((rest % 10) as nat),
            ));
            assert(decimal((rest / 10) as nat).push(digit_char((rest % 10) as nat)) + out@
                =~= decimal((rest / 10) as nat) + (d@ + out@));
        }
        out = String::from_str(d).concat(out.as_str());
        rest = rest / 10;
    }
    String::from_str(digit_text(rest)).concat(out.as_str())
}

/// `count` spaces.
pub open spec fn spaces(count: nat) -> Seq<char> {
    Seq::new(count, |i: int| ' ')
}

/// A text brought to the width `width`: one that is longer is cut to
/// `width - 3` characters and ends in three dots, one that is shorter is
/// filled up with spaces.
pub open spec fn fitted(s: Seq<char>, width: nat) -> Seq<char> {
    if s.len() > width {
        s.take(width - 3) + seq!['.', '.', '.']
    } else {
        s + spaces((width - s.len()) as nat)
    }
}

/// Brings a text to the width `max_length`, counted in characters. A text
/// that is longer can be cut only where the width leaves room for the three
/// dots.
pub fn format_string(s: &str, max_length: usize) -> (out: String)
    requires
        s@.len() > max_length ==> max_length >= 3,
    ensures
        out@ == fitted(s@, max_length as nat),
        out@.len() == max_length,
{
    let len: usize = s.unicode_len();
    if len > max_length {
        let mut out = s.substring_char(0, max_length - 3).to_owned();
        proof {
            reveal_strlit("...");
            assert("..."@ =~= seq!['.', '.', '.']);
        }
        out.append("...");
        out
    } else {
        let mut out = s.to_owned();
        let mut added: usize = 0;
        proof {
            assert(s@ + spaces(0) =~= s@);
        }
        while added < max_length - len
            invariant
                0 <= added <= max_length - len,
                len == s@.len(),
                out@ == s@ + spaces(added as nat),
            decreases max_length - len - added,
        {
            proof {
                reveal_strlit(" ");
                assert(s@ + spaces(added as nat) + " "@ =~= s@ + spaces((added + 1) as nat));
            }
            out.append(" ");
            added = added + 1;
        }
        out
    }
}

} // verus!
