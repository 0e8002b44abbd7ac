use vstd::prelude::*;
use vstd::string::{StrSliceExecFns, StringExecFns};

verus! {

broadcast use {vstd::laws_cmp::group_laws_cmp, vstd::std_specs::btree::group_btree_axioms};

/// The values of `s` in order of first occurrence, each kept once.
pub open spec fn dedup_spec(s: Seq<u32>) -> Seq<u32>
    decreases s.len(),
{
    if s.len() == 0 {
        Seq::empty()
    } else {
        let prefix = dedup_spec(s.drop_last());
        if prefix.contains(s.last()) {
            prefix
        } else {
            prefix.push(s.last())
        }
    }
}

/// Deduplicating keeps every value of the input, adds none, and keeps each
/// value once.
pub proof fn lemma_dedup_keeps_each_value_once(s: Seq<u32>)
    ensures
        dedup_spec(s).no_duplicates(),
        forall|x: u32| dedup_spec(s).contains(x) <==> s.contains(x),
    decreases s.len(),
{
    if s.len() > 0 {
        let prefix = dedup_spec(s.drop_last());
        lemma_dedup_keeps_each_value_once(s.drop_last());
        assert forall|x: u32| dedup_spec(s).contains(x) <==> s.contains(x) by {
            if s.contains(x) {
                let i = choose|i: int| 0 <= i < s.len() && s[i] == x;
                if i < s.len() - 1 {
                    assert(s.drop_last()[i] == x);
                    assert(s.drop_last().contains(x));
                    assert(prefix.contains(x));
                    let k = choose|k: int| 0 <= k < prefix.len() && prefix[k] == x;
                    if !prefix.contains(s.last()) {
                        assert(prefix.push(s.last())[k] == x);
                    }
                } else {
                    assert(x == s.last());
                    if !prefix.contains(s.last()) {
                        assert(prefix.push(s.last())[prefix.len() as int] == x);
                    }
                }
            }
            if dedup_spec(s).contains(x) {
                if prefix.contains(x) {
                    assert(s.drop_last().contains(x));
                    let j = choose|j: int| 0 <= j < s.drop_last().len() && s.drop_last()[j] == x;
                    assert(s[j] == x);
                } else {
                    let k = choose|k: int| 0 <= k < dedup_spec(s).len() && dedup_spec(s)[k] == x;
                    assert(!prefix.contains(s.last()));
                    if k < prefix.len() {
                        assert(prefix[k] == x);
                    }
                    assert(x == s.last());
                    assert(s[s.len() - 1] == x);
                }
            }
        }
        if !prefix.contains(s.last()) {
            assert forall|i: int, j: int| 0 <= i < j < dedup_spec(s).len() implies dedup_spec(s)[i] != dedup_spec(s)[j] by {
                if j == prefix.len() {
                    assert(prefix[i] == dedup_spec(s)[i]);
                }
            }
        }
    }
}

/// Removes repeated values, keeping the first occurrence of each.
pub fn dedup(values: Vec<u32>) -> (output: Vec<u32>)
    ensures
        output@ == dedup_spec(values@),
{
    let mut seen: std::collections::BTreeSet<u32> = std::collections::BTreeSet::new();
    let mut output: Vec<u32> = Vec::new();
    let mut i: usize = 0;
    while i < values.len()
        invariant
            i <= values.len(),
            output@ == dedup_spec(values@.take(i as int)),
            forall|v: u32| seen@.contains(v) <==> output@.contains(v),
        decreases values.len() - i,
    {
        let value = values[i];
        proof {
            assert(values@.take(i as int + 1).drop_last() =~= values@.take(i as int));
        }
        let ghost old_output = output@;
        let fresh = seen.insert(value);
        if fresh {
            output.push(value);
            proof {
                assert forall|v: u32| output@.contains(v) <==> (old_output.contains(v) || v == value) by {
                    if v == value {
                        assert(output@[output@.len() - 1] == value);
                    }
                    if old_output.contains(v) {
                        let k = choose|k: int| 0 <= k < old_output.len() && old_output[k] == v;
                        assert(output@[k] == v);
                    }
                }
            }
        }
        i = i + 1;
    }
    proof {
        assert(values@.take(values.len() as int) =~= values@);
    }
    output
}

/// Whether `s` holds a `::` separator starting at position `i`.
pub open spec fn separator_at(s: Seq<char>, i: int) -> bool {
    0 <= i && i + 1 < s.len() && s[i] == ':' && s[i + 1] == ':'
}

/// Scans `s` from position `i`, where the segment being read started at
/// `start`, and gives the last non-empty segment between `::` separators
/// (separators matched left to right without overlap), or `best` when no
/// segment from here on is non-empty.
pub open spec fn last_segment_from(s: Seq<char>, start: int, i: int, best: Seq<char>) -> Seq<char>
    decreases s.len() - i,
{
    if i + 1 >= s.len() || i < 0 {
        let seg = s.subrange(start, s.len() as int);
        if seg.len() > 0 { seg } else { best }
    } else if separator_at(s, i) {
        let seg = s.subrange(start, i);
        last_segment_from(s, i + 2, i + 2, if seg.len() > 0 { seg } else { best })
    } else {
        last_segment_from(s, start, i + 1, best)
    }
}

/// The last non-empty `::`-separated segment of a type path, or the whole
/// text when every segment is empty.
pub open spec fn short_type_name_spec(s: Seq<char>) -> Seq<char> {
    last_segment_from(s, 0, 0, s)
}

/// Strips the module path from a type name: the last non-empty segment
/// between `::` separators, or `value` itself when there is none.
pub fn short_type_name_str(value: &str) -> (short: String)
    ensures
        short@ == short_type_name_spec(value@),
{
    let n = value.unicode_len();
    let mut start: usize = 0;
    let mut i: usize = 0;
    let mut best: Option<(usize, usize)> = None;
    while n > 0 && i < n - 1
        invariant
            n == value@.len(),
            start <= i <= n,
            best matches Some((a, b)) ==> a < b <= n,
            short_type_name_spec(value@) == last_segment_from(
                value@,
                start as int,
                i as int,
                match best {
                    Some((a, b)) => value@.subrange(a as int, b as int),
                    None => value@,
                },
            ),
        decreases n - i,
    {
        if value.get_char(i) == ':' && value.get_char(i + 1) == ':' {
            if start < i {
                best = Some((start, i));
            }
            start = i + 2;
            i = i + 2;
        } else {
            i = i + 1;
        }
    }
    if start < n {
        best = Some((start, n));
    }
    match best {
        Some((a, b)) => String::from_str(value.substring_char(a, b)),
        None => String::from_str(value),
    }
}

/// Wraps `String::push`: the string afterwards is the old one with `c` added at the end.
#[verifier::external_body]
pub(crate) fn push_char(s: &mut String, c: char)
    ensures
        final(s)@ == old(s)@.push(c),
{
    s.push(c);
}

/// Whether `c` is white space as `char::is_whitespace` defines it (the
/// Unicode `White_Space` property).
pub open spec fn is_whitespace_spec(c: char) -> bool {
    ||| ('\u{9}' <= c && c <= '\u{d}')
    ||| c == ' '
    ||| c == '\u{85}'
    ||| c == '\u{a0}'
    ||| c == '\u{1680}'
    ||| ('\u{2000}' <= c && c <= '\u{200a}')
    ||| c == '\u{2028}'
    ||| c == '\u{2029}'
    ||| c == '\u{202f}'
    ||| c == '\u{205f}'
    ||| c == '\u{3000}'
}

fn is_whitespace(c: char) -> (b: bool)
    ensures
        b == is_whitespace_spec(c),
{
    ('\u{9}' <= c && c <= '\u{d}') || c == ' ' || c == '\u{85}' || c == '\u{a0}' || c == '\u{1680}'
        || ('\u{2000}' <= c && c <= '\u{200a}') || c == '\u{2028}' || c == '\u{2029}' || c
        == '\u{202f}' || c == '\u{205f}' || c == '\u{3000}'
}

/// Whether text is empty once white space is trimmed from both ends.
pub open spec fn is_blank_spec(s: Seq<char>) -> bool {
    forall|i: int| 0 <= i < s.len() ==> is_whitespace_spec(#[trigger] s[i])
}

/// Whether `s.trim()` would be empty: every character is white space.
pub fn is_blank(s: &str) -> (b: bool)
    ensures
        b == is_blank_spec(s@),
{
    let n = s.unicode_len();
    let mut i: usize = 0;
    while i < n
        invariant
            n == s@.len(),
            i <= n,
            forall|j: int| 0 <= j < i ==> is_whitespace_spec(#[trigger] s@[j]),
        decreases n - i,
    {
        if !is_whitespace(s.get_char(i)) {
            return false;
        }
        i = i + 1;
    }
    true
}

/// The label cut to `max_chars` characters: unchanged when it fits, otherwise
/// its first `max_chars - 1` characters followed by an ellipsis.
pub open spec fn truncate_label_spec(label: Seq<char>, max_chars: nat) -> Seq<char> {
    if label.len() <= max_chars {
        label
    } else {
        label.take(if max_chars == 0 { 0 } else { max_chars - 1 }).push('…')
    }
}

/// Cuts a label to at most `max_chars` characters, marking a cut with `…`
/// (a cut label of limit 0 is the ellipsis alone).
pub fn truncate_label(label: &str, max_chars: usize) -> (out: String)
    ensures
        out@ == truncate_label_spec(label@, max_chars as nat),
        max_chars > 0 ==> out@.len() <= max_chars,
{
    let n = label.unicode_len();
    if n <= max_chars {
        return String::from_str(label);
    }
    let keep = if max_chars == 0 { 0 } else { max_chars - 1 };
    let mut out = String::from_str(label.substring_char(0, keep));
    push_char(&mut out, '…');
    out
}

/// The decimal digit character for `d < 10`.
pub open spec fn digit_char(d: nat) -> char {
    if d == 0 { '0' } else if d == 1 { '1' } else if d == 2 { '2' } else if d == 3 { '3' }
    else if d == 4 { '4' } else if d == 5 { '5' } else if d == 6 { '6' } else if d == 7 { '7' }
    else if d == 8 { '8' } else { '9' }
}

/// The decimal rendering of `n`, without leading zeros.
pub open spec fn decimal_spec(n: nat) -> Seq<char>
    decreases n,
{
    if n < 10 {
        seq![digit_char(n)]
    } else {
        decimal_spec(n / 10).push(digit_char(n % 10))
    }
}

fn digit(d: u64) -> (c: char)
    requires
        d < 10,
    ensures
        c == digit_char(d as nat),
{
    match d {
        0 => '0',
        1 => '1',
        2 => '2',
        3 => '3',
        4 => '4',
        5 => '5',
        6 => '6',
        7 => '7',
        8 => '8',
        _ => '9',
    }
}

/// Appends the decimal rendering of `n` to `out`.
pub(crate) fn push_decimal(out: &mut String, n: u64)
    ensures
        final(out)@ == old(out)@ + decimal_spec(n as nat),
    decreases n,
{
    if n < 10 {
        push_char(out, digit(n));
        assert(old(out)@.push(digit_char(n as nat)) =~= old(out)@ + seq![digit_char(n as nat)]);
    } else {
        push_decimal(out, n / 10);
        push_char(out, digit(n % 10));
        assert(old(out)@ + decimal_spec(n as nat / 10).push(digit_char(n as nat % 10)) =~= old(out)@
            + decimal_spec(n as nat / 10) + seq![digit_char(n as nat % 10)]);
    }
}

} // verus!
