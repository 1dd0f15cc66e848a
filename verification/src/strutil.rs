//! Character-level string helpers shared by the protocol codec, the status
//! renderer and the snapshot codec: decimal formatting and parsing, first
//! occurrence and splitting on a separator, whitespace collapsing, and
//! substring search.
use vstd::prelude::*;

verus! {

/// The character for a single decimal digit.
pub open spec fn digit_char(d: int) -> char {
    if d == 0 {
        '0'
    } else if d == 1 {
        '1'
    } else if d == 2 {
        '2'
    } else if d == 3 {
        '3'
    } else if d == 4 {
        '4'
    } else if d == 5 {
        '5'
    } else if d == 6 {
        '6'
    } else if d == 7 {
        '7'
    } else if d == 8 {
        '8'
    } else {
        '9'
    }
}

pub open spec fn is_digit_char(c: char) -> bool {
    48 <= c as u32 && c as u32 <= 57
}

pub open spec fn digit_val(c: char) -> nat {
    if is_digit_char(c) {
        (c as u32 - 48) as nat
    } else {
        0
    }
}

pub open spec fn all_digits(s: Seq<char>) -> bool {
    forall|i: int| 0 <= i < s.len() ==> is_digit_char(#[trigger] s[i])
}

/// The number denoted by a string of decimal digits, most significant first.
pub open spec fn num_of(s: Seq<char>) -> nat
    decreases s.len(),
{
    if s.len() == 0 {
        0
    } else {
        num_of(s.drop_last()) * 10 + digit_val(s.last())
    }
}

/// The canonical decimal rendering of a number: no leading zeros, except
/// that zero itself is "0".
pub open spec fn dec_spec(n: nat) -> Seq<char>
    decreases n,
{
    if n < 10 {
        seq![digit_char(n as int)]
    } else {
        dec_spec(n / 10) + seq![digit_char((n % 10) as int)]
    }
}

/// Decimal rendering padded with a leading zero to at least two characters.
pub open spec fn two_pad_spec(n: nat) -> Seq<char> {
    if n < 10 {
        seq!['0'] + dec_spec(n)
    } else {
        dec_spec(n)
    }
}

pub proof fn lemma_digit_char_val(d: int)
    requires
        0 <= d < 10,
    ensures
        is_digit_char(digit_char(d)),
        digit_val(digit_char(d)) == d,
{
}

/// The canonical decimal rendering consists of digits and reads back as the
/// number it was made from.
pub proof fn lemma_dec_spec(n: nat)
    ensures
        dec_spec(n).len() >= 1,
        all_digits(dec_spec(n)),
        num_of(dec_spec(n)) == n,
    decreases n,
{
    if n < 10 {
        lemma_digit_char_val(n as int);
        assert(dec_spec(n).drop_last() =~= Seq::<char>::empty());
        assert(num_of(Seq::<char>::empty()) == 0);
        assert(dec_spec(n).last() == digit_char(n as int));
        assert(num_of(dec_spec(n)) == num_of(dec_spec(n).drop_last()) * 10 + digit_val(
            dec_spec(n).last(),
        ));
    } else {
        lemma_dec_spec(n / 10);
        lemma_digit_char_val((n % 10) as int);
        let s = dec_spec(n);
        assert(s.drop_last() =~= dec_spec(n / 10));
        assert(s.last() == digit_char((n % 10) as int));
        assert(num_of(s) == num_of(s.drop_last()) * 10 + digit_val(s.last()));
        assert(num_of(s) == (n / 10) * 10 + (n % 10));
        assert((n / 10) * 10 + (n % 10) == n) by {
            vstd::arithmetic::div_mod::lemma_fundamental_div_mod(n as int, 10);
        }
    }
}

/// The segments of `s` between occurrences of the separator `c`; always at
/// least one segment, and one more segment than separators.
pub open spec fn split_char_spec(s: Seq<char>, c: char) -> Seq<Seq<char>>
    decreases s.len(),
{
    if s.len() == 0 {
        seq![Seq::<char>::empty()]
    } else {
        let rest = split_char_spec(s.drop_first(), c);
        if s[0] == c {
            seq![Seq::<char>::empty()] + rest
        } else {
            seq![seq![s[0]] + rest[0]] + rest.drop_first()
        }
    }
}

pub proof fn lemma_split_len_ge1(s: Seq<char>, c: char)
    ensures
        split_char_spec(s, c).len() >= 1,
    decreases s.len(),
{
    if s.len() > 0 {
        lemma_split_len_ge1(s.drop_first(), c);
    }
}

/// A separator-free string is a single segment.
pub proof fn lemma_split_free(s: Seq<char>, c: char)
    requires
        forall|k: int| 0 <= k < s.len() ==> s[k] != c,
    ensures
        split_char_spec(s, c) =~~= seq![s],
    decreases s.len(),
{
    if s.len() > 0 {
        lemma_split_free(s.drop_first(), c);
        assert(seq![s[0]] + s.drop_first() =~= s);
    }
}

/// A string that holds the separator splits into two or more segments.
pub proof fn lemma_split_has_sep(s: Seq<char>, c: char, j: int)
    requires
        0 <= j < s.len(),
        s[j] == c,
    ensures
        split_char_spec(s, c).len() >= 2,
    decreases s.len(),
{
    lemma_split_len_ge1(s.drop_first(), c);
    if s[0] != c {
        lemma_split_has_sep(s.drop_first(), c, j - 1);
    }
}

/// Splitting a string of the shape `a ; b` where `a` is separator-free
/// peels off `a` as the first segment.
pub proof fn lemma_split_prefix(a: Seq<char>, b: Seq<char>, c: char)
    requires
        forall|k: int| 0 <= k < a.len() ==> a[k] != c,
    ensures
        split_char_spec(a + seq![c] + b, c) =~~= seq![a] + split_char_spec(b, c),
    decreases a.len(),
{
    let s = a + seq![c] + b;
    if a.len() == 0 {
        assert(s[0] == c);
        assert(s.drop_first() =~= b);
    } else {
        assert(s[0] == a[0]);
        assert(s.drop_first() =~= a.drop_first() + seq![c] + b);
        lemma_split_prefix(a.drop_first(), b, c);
        lemma_split_len_ge1(b, c);
        let rest = split_char_spec(s.drop_first(), c);
        assert(rest =~~= seq![a.drop_first()] + split_char_spec(b, c));
        assert(seq![s[0]] + rest[0] =~= a);
        assert(rest.drop_first() =~= split_char_spec(b, c));
    }
}

/// `s` with runs of spaces collapsed to a single space and a leading space
/// removed; a single trailing space may remain (`trim_spec` removes it).
pub open spec fn squish(s: Seq<char>) -> Seq<char>
    decreases s.len(),
{
    if s.len() == 0 {
        Seq::<char>::empty()
    } else {
        let front = squish(s.drop_last());
        if s.last() == ' ' {
            if front.len() == 0 || front.last() == ' ' {
                front
            } else {
                front + seq![' ']
            }
        } else {
            front + seq![s.last()]
        }
    }
}

/// `s` with space runs collapsed to single spaces and no leading or
/// trailing space.
pub open spec fn trim_spec(s: Seq<char>) -> Seq<char> {
    let t = squish(s);
    if t.len() > 0 && t.last() == ' ' {
        t.drop_last()
    } else {
        t
    }
}

/// `needle` occurs contiguously somewhere in `hay`.
pub open spec fn contains_spec(hay: Seq<char>, needle: Seq<char>) -> bool {
    exists|i: int|
        0 <= i && i + needle.len() <= hay.len() && #[trigger] hay.subrange(i, i + needle.len())
            == needle
}

/// The one-character string for a decimal digit.
pub fn digit_str(d: u8) -> (r: &'static str)
    requires
        d < 10,
    ensures
        r@ =~= seq![digit_char(d as int)],
{
    proof {
        reveal_strlit("0");
        reveal_strlit("1");
        reveal_strlit("2");
        reveal_strlit("3");
        reveal_strlit("4");
        reveal_strlit("5");
        reveal_strlit("6");
        reveal_strlit("7");
        reveal_strlit("8");
        reveal_strlit("9");
    }
    match d {
        0 => "0",
        1 => "1",
        2 => "2",
        3 => "3",
        4 => "4",
        5 => "5",
        6 => "6",
        7 => "7",
        8 => "8",
        _ => "9",
    }
}

/// Canonical decimal rendering of `n`.
pub fn u32_to_dec(n: u32) -> (r: String)
    ensures
        r@ == dec_spec(n as nat),
    decreases n,
{
    if n < 10 {
        let mut s = String::new();
        s.append(digit_str(n as u8));
        proof {
            assert(s@ =~= dec_spec(n as nat));
        }
        s
    } else {
        let mut s = u32_to_dec(n / 10);
        s.append(digit_str((n % 10) as u8));
        s
    }
}

/// Decimal rendering of `n`, zero-padded to at least two characters.
pub fn two_pad(n: u16) -> (r: String)
    ensures
        r@ == two_pad_spec(n as nat),
{
    if n < 10 {
        proof {
            reveal_strlit("0");
        }
        let mut s = String::new();
        s.append("0");
        s.append(digit_str(n as u8));
        proof {
            assert(s@ =~= two_pad_spec(n as nat));
        }
        s
    } else {
        u32_to_dec(n as u32)
    }
}

/// Appending digits to a digit string can only keep or grow its value.
proof fn lemma_num_of_take_monotone(s: Seq<char>, i: int, j: int)
    requires
        0 <= i <= j <= s.len(),
    ensures
        num_of(s.subrange(0, i)) <= num_of(s.subrange(0, j)),
    decreases j - i,
{
    if i < j {
        lemma_num_of_take_monotone(s, i, j - 1);
        let a = s.subrange(0, j - 1);
        let b = s.subrange(0, j);
        assert(b.drop_last() =~= a);
        assert(num_of(b) == num_of(a) * 10 + digit_val(b.last()));
    }
}

/// Parses a non-empty all-digit string as a number; `None` when the string
/// is empty, holds a non-digit, or denotes a value above `u32::MAX`.
pub fn parse_u32(s: &str) -> (r: Option<u32>)
    ensures
        match r {
            Some(v) => s@.len() > 0 && all_digits(s@) && num_of(s@) == v as nat,
            None => s@.len() == 0 || !all_digits(s@) || num_of(s@) > u32::MAX as nat,
        },
{
    let n = s.unicode_len();
    if n == 0 {
        return None;
    }
    let mut acc: u64 = 0;
    let mut i: usize = 0;
    while i < n
        invariant
            0 <= i <= n,
            n == s@.len(),
            all_digits(s@.subrange(0, i as int)),
            acc as nat == num_of(s@.subrange(0, i as int)),
            acc <= u32::MAX as u64,
        decreases n - i,
    {
        let c = s.get_char(i);
        let cv = c as u32;
        if cv < 48 || cv > 57 {
            assert(!is_digit_char(s@[i as int]));
            return None;
        }
        let d = (cv - 48) as u64;
        let next: u64 = acc * 10 + d;
        proof {
            let t = s@.subrange(0, i as int + 1);
            assert(t.drop_last() =~= s@.subrange(0, i as int));
            assert(t.last() == s@[i as int]);
            assert(num_of(t) == acc as nat * 10 + digit_val(s@[i as int]));
        }
        if next > u32::MAX as u64 {
            proof {
                lemma_num_of_take_monotone(s@, i as int + 1, n as int);
                assert(s@.subrange(0, n as int) =~= s@);
            }
            return None;
        }
        acc = next;
        i = i + 1;
    }
    proof {
        assert(s@.subrange(0, n as int) =~= s@);
    }
    Some(acc as u32)
}

/// First occurrence of `c` in `s` at or after index `from`.
pub fn find_char_from(s: &str, from: usize, c: char) -> (r: Option<usize>)
    requires
        from <= s@.len(),
    ensures
        match r {
            Some(j) => from <= j < s@.len() && s@[j as int] == c && forall|k: int|
                from <= k < j ==> s@[k] != c,
            None => forall|k: int| from <= k < s@.len() ==> s@[k] != c,
        },
{
    let n = s.unicode_len();
    let mut i: usize = from;
    while i < n
        invariant
            from <= i <= n,
            n == s@.len(),
            forall|k: int| from <= k < i ==> s@[k] != c,
        decreases n - i,
    {
        if s.get_char(i) == c {
            return Some(i);
        }
        i = i + 1;
    }
    None
}

/// Whether `a` and `b` hold the same characters.
pub fn str_eq(a: &str, b: &str) -> (r: bool)
    ensures
        r == (a@ == b@),
{
    let sa = String::from_str(a);
    let sb = String::from_str(b);
    sa == sb
}

/// Whether `needle` occurs contiguously in `hay`.
pub fn contains_sub(hay: &str, needle: &str) -> (r: bool)
    ensures
        r == contains_spec(hay@, needle@),
{
    let nh = hay.unicode_len();
    let nn = needle.unicode_len();
    if nn > nh {
        assert(forall|i: int|
            0 <= i && i + needle@.len() <= hay@.len() ==> #[trigger] hay@.subrange(
                i,
                i + needle@.len(),
            ) != needle@);
        return false;
    }
    if nn == 0 {
        proof {
            assert(hay@.subrange(0, 0 + needle@.len() as int) =~= needle@);
            assert(contains_spec(hay@, needle@));
        }
        return true;
    }
    let bound = nh - nn + 1;
    let mut i: usize = 0;
    while i < bound
        invariant
            nh == hay@.len(),
            nn == needle@.len(),
            1 <= nn <= nh,
            bound == nh - nn + 1,
            0 <= i <= bound,
            forall|k: int| 0 <= k < i ==> #[trigger] hay@.subrange(k, k + needle@.len())
                != needle@,
        decreases bound - i,
    {
        let mut j: usize = 0;
        let mut matched: bool = true;
        while j < nn
            invariant
                nh == hay@.len(),
                nn == needle@.len(),
                0 <= i <= nh - nn,
                0 <= j <= nn,
                matched ==> forall|k: int| 0 <= k < j ==> hay@[i + k] == needle@[k],
                !matched ==> hay@.subrange(i as int, i + needle@.len()) != needle@,
            decreases nn - j,
        {
            if hay.get_char(i + j) != needle.get_char(j) {
                proof {
                    let sub = hay@.subrange(i as int, i + needle@.len());
                    assert(sub[j as int] == hay@[i + j]);
                }
                matched = false;
                j = nn;
            } else {
                j = j + 1;
            }
        }
        if matched {
            proof {
                let sub = hay@.subrange(i as int, i + needle@.len());
                assert(sub =~= needle@);
            }
            return true;
        }
        i = i + 1;
    }
    false
}

/// `s` holds no occurrence of `c`.
pub open spec fn sep_free(s: Seq<char>, c: char) -> bool {
    forall|k: int| 0 <= k < s.len() ==> s[k] != c
}

/// The segments joined back together with the separator between them.
pub open spec fn join_char(parts: Seq<Seq<char>>, c: char) -> Seq<char>
    decreases parts.len(),
{
    if parts.len() == 0 {
        Seq::<char>::empty()
    } else if parts.len() == 1 {
        parts[0]
    } else {
        parts[0] + seq![c] + join_char(parts.drop_first(), c)
    }
}

/// Splitting undoes joining, as long as no segment holds the separator.
pub proof fn lemma_split_join(parts: Seq<Seq<char>>, c: char)
    requires
        parts.len() >= 1,
        forall|i: int| 0 <= i < parts.len() ==> sep_free(#[trigger] parts[i], c),
    ensures
        split_char_spec(join_char(parts, c), c) == parts,
    decreases parts.len(),
{
    if parts.len() == 1 {
        lemma_split_free(parts[0], c);
        assert(split_char_spec(join_char(parts, c), c) =~~= parts);
    } else {
        lemma_split_join(parts.drop_first(), c);
        lemma_split_prefix(parts[0], join_char(parts.drop_first(), c), c);
        assert(split_char_spec(join_char(parts, c), c) =~~= seq![parts[0]] + parts.drop_first());
        assert(seq![parts[0]] + parts.drop_first() =~~= parts);
    }
}

/// Joins the segments with a semicolon between them, starting at `i`.
fn join_semi_from(parts: &Vec<String>, i: usize) -> (r: String)
    requires
        i < parts@.len(),
    ensures
        r@ == join_char(parts@.map_values(|p: String| p@).skip(i as int), ';'),
    decreases parts@.len() - i,
{
    let ghost m = parts@.map_values(|p: String| p@);
    let n = parts.len();
    if i + 1 == n {
        let r = parts[i].clone();
        proof {
            assert(m.skip(i as int) =~= seq![m[i as int]]);
        }
        r
    } else {
        let mut s = parts[i].clone();
        s.append(";");
        let rest = join_semi_from(parts, i + 1);
        s.append(rest.as_str());
        proof {
            reveal_strlit(";");
            assert(";"@ =~= seq![';']);
            assert(m.skip(i as int).drop_first() =~= m.skip(i as int + 1));
            assert(m.skip(i as int)[0] == m[i as int]);
            assert(m.skip(i as int).len() >= 2);
        }
        s
    }
}

/// Joins the segments with a semicolon between them.
pub fn join_semi(parts: &Vec<String>) -> (r: String)
    requires
        parts@.len() >= 1,
    ensures
        r@ == join_char(parts@.map_values(|p: String| p@), ';'),
{
    let r = join_semi_from(parts, 0);
    proof {
        assert(parts@.map_values(|p: String| p@).skip(0) =~= parts@.map_values(|p: String| p@));
    }
    r
}

/// Splits `s` on `sep` into its segments, in order.
pub fn split_str(s: &str, sep: char) -> (parts: Vec<String>)
    ensures
        parts@.map_values(|p: String| p@) == split_char_spec(s@, sep),
    decreases s@.len(),
{
    let n = s.unicode_len();
    match find_char_from(s, 0, sep) {
        None => {
            proof {
                lemma_split_free(s@, sep);
            }
            let mut parts: Vec<String> = Vec::new();
            parts.push(String::from_str(s));
            proof {
                assert(parts@.map_values(|p: String| p@) =~= seq![s@]);
            }
            parts
        },
        Some(j) => {
            let head = s.substring_char(0, j);
            let tail = s.substring_char(j + 1, n);
            proof {
                assert(forall|k: int| 0 <= k < head@.len() ==> head@[k] == s@[k]);
                assert(head@ + seq![sep] + tail@ =~= s@);
                lemma_split_prefix(head@, tail@, sep);
            }
            let mut parts = split_str(tail, sep);
            parts.insert(0, String::from_str(head));
            proof {
                assert(parts@.map_values(|p: String| p@) =~= seq![head@] + split_char_spec(
                    tail@,
                    sep,
                ));
            }
            parts
        },
    }
}

/// Collapses runs of spaces to a single space and removes leading and
/// trailing spaces.
pub fn trim_whitespace(s: &str) -> (r: String)
    ensures
        r@ == trim_spec(s@),
{
    proof {
        reveal_strlit(" ");
    }
    let n = s.unicode_len();
    let mut out = String::new();
    let mut nonempty: bool = false;
    let mut pending: bool = false;
    let mut i: usize = 0;
    while i < n
        invariant
            0 <= i <= n,
            n == s@.len(),
            nonempty == (out@.len() > 0),
            out@.len() > 0 ==> out@.last() != ' ',
            squish(s@.subrange(0, i as int)) == out@ + (if pending && nonempty {
                seq![' ']
            } else {
                Seq::<char>::empty()
            }),
        decreases n - i,
    {
        let c = s.get_char(i);
        let ghost t = s@.subrange(0, i as int + 1);
        let ghost pre = out@;
        proof {
            assert(t.drop_last() =~= s@.subrange(0, i as int));
            assert(t.last() == s@[i as int]);
        }
        if c == ' ' {
            proof {
                // The squished prefix gains at most one trailing space.
                if nonempty {
                    if pending {
                        assert(squish(t.drop_last()) == pre + seq![' ']);
                        assert(squish(t) == pre + seq![' ']);
                    } else {
                        assert(squish(t.drop_last()) == pre + Seq::<char>::empty());
                        assert(pre + Seq::<char>::empty() =~= pre);
                        assert(squish(t.drop_last()) == pre);
                        assert(squish(t) == pre + seq![' ']);
                    }
                } else {
                    assert(squish(t) == squish(t.drop_last()));
                }
            }
            pending = true;
        } else {
            if nonempty && pending {
                out.append(" ");
                proof {
                    reveal_strlit(" ");
                    assert(" "@ =~= seq![' ']);
                }
            }
            let one = s.substring_char(i, i + 1);
            proof {
                assert(one@ =~= seq![s@[i as int]]);
            }
            out.append(one);
            proof {
                if nonempty && pending {
                    assert(squish(t.drop_last()) == pre + seq![' ']);
                    assert(out@ =~= (pre + seq![' ']) + seq![s@[i as int]]);
                } else {
                    assert(pre + Seq::<char>::empty() =~= pre);
                    assert(squish(t.drop_last()) == pre);
                    assert(out@ =~= pre + seq![s@[i as int]]);
                }
                assert(squish(t) == squish(t.drop_last()) + seq![t.last()]);
                assert(squish(t) == out@);
                assert(out@ + Seq::<char>::empty() =~= out@);
                assert(out@.last() == s@[i as int]);
            }
            nonempty = true;
            pending = false;
        }
        i = i + 1;
    }
    proof {
        assert(s@.subrange(0, n as int) =~= s@);
        if pending && nonempty {
            assert(squish(s@) == out@ + seq![' ']);
            assert(squish(s@).last() == ' ');
            assert(squish(s@).drop_last() =~= out@);
        } else {
            assert(squish(s@) == out@ + Seq::<char>::empty());
            assert(squish(s@) =~= out@);
        }
    }
    out
}

} // verus!
