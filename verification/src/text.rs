//! Text building: decimal and hexadecimal numerals, and the string
//! comparisons and copies the rest of the crate is written with.
use vstd::prelude::*;
use vstd::string::*;

verus! {

/// The character that stands for the digit `d` (`0..16`, lower case).
pub open spec fn digit_char(d: int) -> char {
    if d < 10 {
        (48 + d) as char
    } else {
        (87 + d) as char
    }
}

/// The text in which std reports why `bytes` are not UTF-8.
pub uninterp spec fn utf8_error_text(bytes: Seq<u8>) -> Seq<char>;

/// The decimal numeral of `n`, without leading zeros.
pub open spec fn decimal(n: nat) -> Seq<char>
    decreases n,
{
    if n < 10 {
        seq![digit_char(n as int)]
    } else {
        decimal(n / 10).push(digit_char((n % 10) as int))
    }
}

/// The hexadecimal numeral of `n`, without prefix and without leading zeros.
pub open spec fn hexadecimal(n: nat) -> Seq<char>
    decreases n,
{
    if n < 16 {
        seq![digit_char(n as int)]
    } else {
        hexadecimal(n / 16).push(digit_char((n % 16) as int))
    }
}

/// The hexadecimal numeral of the byte `b`, with the `0x` prefix and without
/// leading zeros.
pub open spec fn hex_byte(b: u8) -> Seq<char> {
    "0x"@ + hexadecimal(b as nat)
}

/// The text that `bytes` encode, if they are UTF-8.
pub open spec fn utf8_text(bytes: Seq<u8>) -> Option<Seq<char>> {
    if vstd::utf8::valid_utf8(bytes) {
        Some(vstd::utf8::decode_utf8(bytes))
    } else {
        None
    }
}

/// The one-character text of a digit.
fn digit_text(d: u8) -> (r: &'static str)
    requires
        d < 16,
    ensures
        r@ == seq![digit_char(d as int)],
{
    proof {
        reveal_strlit("0");
        reveal_strlit("1");
        reveal_strlit("2");
        reveal_strlit("3");
        reveal_strlit("4");
        reveal_strlit("5");
        reveal_strlit("6");
        reveal_strlit("7");
        reveal_strlit("8");
        reveal_strlit("9");
        reveal_strlit("a");
        reveal_strlit("b");
        reveal_strlit("c");
        reveal_strlit("d");
        reveal_strlit("e");
        reveal_strlit("f");
    }
    match d {
        0 => "0",
        1 => "1",
        2 => "2",
        3 => "3",
        4 => "4",
        5 => "5",
        6 => "6",
        7 => "7",
        8 => "8",
        9 => "9",
        10 => "a",
        11 => "b",
        12 => "c",
        13 => "d",
        14 => "e",
        _ => "f",
    }
}

/// Append the decimal numeral of `n`.
pub fn push_decimal(out: &mut String, n: u64)
    ensures
        final(out)@ == old(out)@ + decimal(n as nat),
    decreases n,
{
    if n < 10 {
        out.append(digit_text(n as u8));
    } else {
        push_decimal(out, n / 10);
        out.append(digit_text((n % 10) as u8));
    }
}

/// Append the hexadecimal numeral of `n`.
pub fn push_hexadecimal(out: &mut String, n: u64)
    ensures
        final(out)@ == old(out)@ + hexadecimal(n as nat),
    decreases n,
{
    if n < 16 {
        out.append(digit_text(n as u8));
    } else {
        push_hexadecimal(out, n / 16);
        out.append(digit_text((n % 16) as u8));
    }
}

/// Append the hexadecimal numeral of a byte.
pub fn push_hex_byte(out: &mut String, b: u8)
    ensures
        final(out)@ == old(out)@ + hex_byte(b),
{
    out.append("0x");
    push_hexadecimal(out, b as u64);
    assert(out@ =~= old(out)@ + hex_byte(b));
}

/// The part of `s` before the first `c`, or the whole of `s`.
pub open spec fn before(s: Seq<char>, c: char) -> Seq<char>
    decreases s.len(),
{
    if s.len() == 0 || s[0] == c {
        Seq::empty()
    } else {
        seq![s[0]] + before(s.drop_first(), c)
    }
}

/// The pieces of `s` between the occurrences of `c`; one piece where there is
/// none.
pub open spec fn split_on(s: Seq<char>, c: char) -> Seq<Seq<char>>
    decreases s.len(),
{
    if s.len() == 0 {
        seq![Seq::empty()]
    } else {
        let front = split_on(s.drop_last(), c);
        if s.last() == c {
            front.push(Seq::empty())
        } else {
            front.drop_last().push(front.last().push(s.last()))
        }
    }
}

/// The pieces of `parts` with `sep` between them.
pub open spec fn join(parts: Seq<Seq<char>>, sep: Seq<char>) -> Seq<char>
    decreases parts.len(),
{
    if parts.len() == 0 {
        Seq::empty()
    } else if parts.len() == 1 {
        parts[0]
    } else {
        join(parts.drop_last(), sep) + sep + parts.last()
    }
}

/// The name without its generic arity: what stands before the first backtick.
pub open spec fn without_arity(name: Seq<char>) -> Seq<char> {
    before(name, '`')
}

/// The name without a trailing `suffix`, where it ends in one and is more than
/// it.
pub open spec fn without_suffix(name: Seq<char>, suffix: Seq<char>) -> Option<Seq<char>> {
    let n = name.len() - suffix.len();
    if n > 0 && name.subrange(n, name.len() as int) == suffix {
        Some(name.subrange(0, n))
    } else {
        None
    }
}

/// A prefix without `c`, followed by `c` or by nothing, is what stands before
/// the first `c`.
proof fn lemma_before(s: Seq<char>, c: char, n: int)
    requires
        0 <= n <= s.len(),
        forall|i: int| 0 <= i < n ==> s[i] != c,
        n == s.len() || s[n] == c,
    ensures
        before(s, c) == s.subrange(0, n),
    decreases s.len(),
{
    if n == 0 {
        assert(s.subrange(0, 0) =~= Seq::empty());
    } else {
        lemma_before(s.drop_first(), c, n - 1);
        assert(seq![s[0]] + s.drop_first().subrange(0, n - 1) =~= s.subrange(0, n));
    }
}

/// There is at least one piece.
pub proof fn lemma_split_on_nonempty(s: Seq<char>, c: char)
    ensures
        split_on(s, c).len() >= 1,
    decreases s.len(),
{
    if s.len() > 0 {
        lemma_split_on_nonempty(s.drop_last(), c);
    }
}

/// The part of `s` before the first `c`.
pub fn cut_before(s: &str, c: char) -> (r: String)
    ensures
        r@ == before(s@, c),
{
    let n: usize = s.unicode_len();
    let mut i: usize = 0;
    while i < n
        invariant
            i <= n,
            n == s@.len(),
            forall|j: int| 0 <= j < i ==> s@[j] != c,
        decreases n - i,
    {
        if s.get_char(i) == c {
            proof {
                lemma_before(s@, c, i as int);
            }
            return s.substring_char(0, i).to_owned();
        }
        i = i + 1;
    }
    proof {
        lemma_before(s@, c, n as int);
        assert(s@.subrange(0, n as int) =~= s@);
    }
    s.to_owned()
}

/// The pieces of `s` between the occurrences of `c`.
pub fn split_text(s: &str, c: char) -> (r: Vec<String>)
    ensures
        r.deep_view() == split_on(s@, c),
{
    let n: usize = s.unicode_len();
    let mut out: Vec<String> = Vec::new();
    let mut start: usize = 0;
    let mut i: usize = 0;
    assert(s@.subrange(0, 0) =~= Seq::<char>::empty());
    assert(out.deep_view().push(s@.subrange(0, 0)) =~= split_on(s@.subrange(0, 0), c));
    while i < n
        invariant
            start <= i <= n,
            n == s@.len(),
            split_on(s@.subrange(0, i as int), c) == out.deep_view().push(
                s@.subrange(start as int, i as int),
            ),
        decreases n - i,
    {
        let ghost seen = s@.subrange(0, i as int);
        let ghost next = s@.subrange(0, i + 1);
        assert(next.drop_last() =~= seen);
        let ghost front = out.deep_view();
        assert(front.push(s@.subrange(start as int, i as int)).drop_last() =~= front);
        if s.get_char(i) == c {
            let piece = s.substring_char(start, i).to_owned();
            out.push(piece);
            assert(out.deep_view() =~= front.push(s@.subrange(start as int, i as int)));
            start = i + 1;
            assert(s@.subrange(i + 1, i + 1) =~= Seq::<char>::empty());
        } else {
            assert(s@.subrange(start as int, i as int).push(s@[i as int]) =~= s@.subrange(
                start as int,
                i + 1,
            ));
        }
        i = i + 1;
    }
    let ghost front = out.deep_view();
    let piece = s.substring_char(start, n).to_owned();
    out.push(piece);
    assert(out.deep_view() =~= front.push(s@.subrange(start as int, n as int)));
    assert(s@.subrange(0, n as int) =~= s@);
    out
}

/// The pieces of `parts` with `sep` between them.
pub fn join_text(parts: &Vec<String>, sep: &str) -> (r: String)
    ensures
        r@ == join(parts.deep_view(), sep@),
{
    let mut out = String::new();
    let mut i: usize = 0;
    while i < parts.len()
        invariant
            i <= parts.len(),
            out@ == join(parts.deep_view().subrange(0, i as int), sep@),
        decreases parts.len() - i,
    {
        let ghost seen = parts.deep_view().subrange(0, i as int);
        let ghost next = parts.deep_view().subrange(0, i + 1);
        assert(next.drop_last() =~= seen);
        assert(next.last() == parts@[i as int]@);
        if i > 0 {
            out.append(sep);
        }
        out.append(parts[i].as_str());
        if i == 0 {
            assert(out@ =~= parts@[0]@);
        }
        i = i + 1;
    }
    assert(parts.deep_view().subrange(0, parts@.len() as int) =~= parts.deep_view());
    out
}

/// The name without its generic arity.
pub fn strip_arity(name: &str) -> (r: String)
    ensures
        r@ == without_arity(name@),
{
    cut_before(name, '`')
}

/// The name without a trailing `suffix`, where it ends in one and is more than
/// it.
pub fn strip_suffix(name: &str, suffix: &str) -> (r: Option<String>)
    ensures
        match without_suffix(name@, suffix@) {
            Some(t) => r is Some && r->0@ == t,
            None => r is None,
        },
{
    let n: usize = name.unicode_len();
    let k: usize = suffix.unicode_len();
    if n <= k {
        return None;
    }
    if name.substring_char(n - k, n).to_owned() == suffix.to_owned() {
        Some(name.substring_char(0, n - k).to_owned())
    } else {
        None
    }
}

/// Whether two texts are the same.
pub fn same_text(a: &str, b: &str) -> (r: bool)
    ensures
        r == (a@ == b@),
{
    a.to_owned() == b.to_owned()
}

/// Decode `bytes` as UTF-8, or say in words why they are not UTF-8.
///
/// Calls [`String::from_utf8`]: it returns the decoded text exactly when the
/// bytes are valid UTF-8, and otherwise an error whose text is a function of
/// the bytes.
#[verifier::external_body]
pub(crate) fn utf8_string(bytes: Vec<u8>) -> (r: Result<String, String>)
    ensures
        match r {
            Ok(s) => vstd::utf8::valid_utf8(bytes@) && s@ == vstd::utf8::decode_utf8(bytes@),
            Err(m) => !vstd::utf8::valid_utf8(bytes@) && m@ == utf8_error_text(bytes@),
        },
{
    match String::from_utf8(bytes) {
        Ok(s) => Ok(s),
        Err(e) => Err(e.to_string()),
    }
}

/// The text that `bytes` encode, if they are UTF-8.
pub fn text_of_bytes(bytes: Vec<u8>) -> (r: Option<String>)
    ensures
        r.deep_view() == utf8_text(bytes@),
{
    match utf8_string(bytes) {
        Ok(s) => Some(s),
        Err(_) => None,
    }
}

/// The pieces between the occurrences of a character, joined by it, are the text.
pub proof fn law_join_split(s: Seq<char>, c: char)
    ensures
        join(split_on(s, c), seq![c]) == s,
    decreases s.len(),
{
    lemma_split_on_nonempty(s, c);
    if s.len() > 0 {
        let x = s.last();
        let front = split_on(s.drop_last(), c);
        lemma_split_on_nonempty(s.drop_last(), c);
        law_join_split(s.drop_last(), c);
        assert(s =~= s.drop_last().push(x));
        if x == c {
            let all = front.push(Seq::empty());
            assert(all.drop_last() =~= front);
            assert(join(all, seq![c]) =~= s);
        } else {
            let all = front.drop_last().push(front.last().push(x));
            assert(all.drop_last() =~= front.drop_last());
            assert(all.last() =~= front.last().push(x));
            assert(join(all, seq![c]) =~= join(front, seq![c]).push(x));
        }
    }
}

} // verus!
