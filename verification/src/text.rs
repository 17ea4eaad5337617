//! Character-level text helpers shared by the library's modules.
//!
//! Strings are specified through their view, a `Seq<char>`.
use vstd::prelude::*;

verus! {

/// `p` is a prefix of `s`.
pub open spec fn is_prefix(p: Seq<char>, s: Seq<char>) -> bool {
    p.len() <= s.len() && s.subrange(0, p.len() as int) == p
}

/// Appends one character to a string (`String::push`).
#[verifier::external_body]
pub(crate) fn string_push(s: &mut String, c: char)
    ensures
        final(s)@ == old(s)@.push(c),
{
    s.push(c);
}

/// The characters of `s`, in order.
pub fn chars_of(s: &str) -> (v: Vec<char>)
    ensures
        v@ == s@,
{
    let mut v: Vec<char> = Vec::new();
    let n = s.unicode_len();
    let mut i: usize = 0;
    while i < n
        invariant
            n == s@.len(),
            i <= n,
            v@ == s@.subrange(0, i as int),
        decreases n - i,
    {
        let c = s.get_char(i);
        v.push(c);
        i = i + 1;
        assert(v@ =~= s@.subrange(0, i as int));
    }
    assert(v@ =~= s@);
    v
}

/// Builds a string out of a sequence of characters.
pub fn string_from_chars(v: &Vec<char>) -> (s: String)
    ensures
        s@ == v@,
{
    let mut s = String::new();
    let mut i: usize = 0;
    while i < v.len()
        invariant
            i <= v.len(),
            s@ == v@.subrange(0, i as int),
        decreases v.len() - i,
    {
        string_push(&mut s, v[i]);
        i = i + 1;
        assert(s@ =~= v@.subrange(0, i as int));
    }
    assert(s@ =~= v@);
    s
}

/// Copies a string slice into an owned string.
pub fn to_string(s: &str) -> (r: String)
    ensures
        r@ == s@,
{
    s.to_owned()
}

/// Whether two string slices hold the same characters.
pub fn str_eq(a: &str, b: &str) -> (r: bool)
    ensures
        r == (a@ == b@),
{
    let x = a.to_owned();
    let y = b.to_owned();
    x == y
}

/// The concatenation of two string slices.
pub fn concat(a: &str, b: &str) -> (r: String)
    ensures
        r@ == a@ + b@,
{
    let mut r = a.to_owned();
    r.append(b);
    r
}

/// Whether `p` is a prefix of `s`.
pub fn starts_with(s: &str, p: &str) -> (r: bool)
    ensures
        r == is_prefix(p@, s@),
{
    let sv = chars_of(s);
    let pv = chars_of(p);
    if pv.len() > sv.len() {
        return false;
    }
    let mut i: usize = 0;
    while i < pv.len()
        invariant
            sv@ == s@,
            pv@ == p@,
            pv.len() <= sv.len(),
            i <= pv.len(),
            forall|j: int| 0 <= j < i ==> sv@[j] == pv@[j],
        decreases pv.len() - i,
    {
        if sv[i] != pv[i] {
            assert(sv@.subrange(0, pv@.len() as int)[i as int] == sv@[i as int]);
            assert(sv@.subrange(0, pv@.len() as int) != pv@);
            return false;
        }
        i = i + 1;
    }
    assert(sv@.subrange(0, pv@.len() as int) =~= pv@);
    true
}

} // verus!

verus! {

/// The text `s` with every non-overlapping occurrence of `from`, found left to
/// right, replaced by `to`.
pub open spec fn replace_all(s: Seq<char>, from: Seq<char>, to: Seq<char>) -> Seq<char>
    recommends
        from.len() > 0,
    decreases s.len(),
{
    if from.len() == 0 || s.len() < from.len() {
        s
    } else if s.subrange(0, from.len() as int) == from {
        to + replace_all(s.subrange(from.len() as int, s.len() as int), from, to)
    } else {
        seq![s[0]] + replace_all(s.subrange(1, s.len() as int), from, to)
    }
}

/// Whether `from` occurs in `s` at position `i`.
fn matches_at(s: &Vec<char>, i: usize, from: &Vec<char>) -> (r: bool)
    requires
        i <= s.len(),
    ensures
        r == (from.len() <= s.len() - i && s@.subrange(i as int, i + from.len()) == from@),
{
    if from.len() > s.len() - i {
        return false;
    }
    let mut j: usize = 0;
    while j < from.len()
        invariant
            i + from.len() <= s.len(),
            j <= from.len(),
            forall|k: int| 0 <= k < j ==> s@[i + k] == from@[k],
        decreases from.len() - j,
    {
        if s[i + j] != from[j] {
            assert(s@.subrange(i as int, i + from.len())[j as int] == s@[i + j]);
            return false;
        }
        j = j + 1;
    }
    assert(s@.subrange(i as int, i + from.len()) =~= from@);
    true
}

/// Replaces every non-overlapping occurrence of a non-empty pattern
/// (`str::replace`).
pub fn replace(s: &str, from: &str, to: &str) -> (r: String)
    requires
        from@.len() > 0,
    ensures
        r@ == replace_all(s@, from@, to@),
{
    let sv = chars_of(s);
    let fv = chars_of(from);
    let tv = chars_of(to);
    let mut out: Vec<char> = Vec::new();
    let mut i: usize = 0;
    assert(sv@.subrange(0, sv@.len() as int) =~= sv@);
    assert(out@ + replace_all(sv@, fv@, tv@) =~= replace_all(sv@, fv@, tv@));
    while i < sv.len()
        invariant
            sv@ == s@,
            fv@ == from@,
            tv@ == to@,
            fv@.len() > 0,
            i <= sv.len(),
            out@ + replace_all(sv@.subrange(i as int, sv@.len() as int), fv@, tv@)
                == replace_all(sv@, fv@, tv@),
        decreases sv.len() - i,
    {
        let ghost rest = sv@.subrange(i as int, sv@.len() as int);
        if matches_at(&sv, i, &fv) {
            assert(rest.subrange(0, fv@.len() as int) =~= sv@.subrange(i as int, i + fv@.len()));
            assert(rest.subrange(fv@.len() as int, rest.len() as int)
                =~= sv@.subrange(i + fv@.len(), sv@.len() as int));
            let mut k: usize = 0;
            let ghost out0 = out@;
            assert(out@ =~= out0 + tv@.subrange(0, 0));
            while k < tv.len()
                invariant
                    k <= tv.len(),
                    out@ == out0 + tv@.subrange(0, k as int),
                decreases tv.len() - k,
            {
                out.push(tv[k]);
                k = k + 1;
                assert(out@ =~= out0 + tv@.subrange(0, k as int));
            }
            assert(tv@.subrange(0, tv@.len() as int) =~= tv@);
            assert(out@ + replace_all(sv@.subrange(i + fv@.len(), sv@.len() as int), fv@, tv@)
                =~= out0 + (tv@ + replace_all(sv@.subrange(i + fv@.len(), sv@.len() as int), fv@, tv@)));
            i = i + fv.len();
        } else {
            if sv.len() - i >= fv.len() {
                assert(rest.subrange(0, fv@.len() as int) =~= sv@.subrange(i as int, i + fv@.len()));
            }
            assert(rest.subrange(1, rest.len() as int) =~= sv@.subrange(i + 1, sv@.len() as int));
            let ghost out0 = out@;
            out.push(sv[i]);
            if sv.len() - i >= fv.len() {
                assert(out@ + replace_all(sv@.subrange(i + 1, sv@.len() as int), fv@, tv@)
                    =~= out0 + (seq![rest[0]] + replace_all(rest.subrange(1, rest.len() as int), fv@, tv@)));
            } else {
                assert(replace_all(rest, fv@, tv@) == rest);
                assert(replace_all(sv@.subrange(i + 1, sv@.len() as int), fv@, tv@)
                    == sv@.subrange(i + 1, sv@.len() as int));
                assert(out@ + sv@.subrange(i + 1, sv@.len() as int) =~= out0 + rest);
            }
            i = i + 1;
        }
    }
    assert(sv@.subrange(i as int, sv@.len() as int) =~= Seq::<char>::empty());
    assert(out@ + Seq::<char>::empty() =~= out@);
    string_from_chars(&out)
}

} // verus!

verus! {

/// The character of a decimal digit.
pub open spec fn digit_char(d: nat) -> char
    recommends
        d < 10,
{
    ((48 + d) as u8) as char
}

/// The decimal representation of `n`, without leading zeros.
pub open spec fn decimal(n: nat) -> Seq<char>
    decreases n,
{
    if n < 10 {
        seq![digit_char(n)]
    } else {
        decimal(n / 10).push(digit_char(n % 10))
    }
}

fn digit(d: u64) -> (c: char)
    requires
        d < 10,
    ensures
        c == digit_char(d as nat),
{
    let b: u8 = 48u8 + (d as u8);
    b as char
}

/// The decimal representation of an unsigned integer (`u64::to_string`).
pub fn u64_to_decimal(n: u64) -> (s: String)
    ensures
        s@ == decimal(n as nat),
{
    // Collect the digits least significant first.
    let mut rev: Vec<char> = Vec::new();
    let mut m: u64 = n;
    let ghost mut suffix: Seq<char> = Seq::empty();
    // decimal(n) == decimal(m) + suffix while m >= 10 or after the last step.
    rev.push(digit(m % 10));
    proof {
        suffix = seq![digit_char((m % 10) as nat)];
    }
    while m >= 10
        invariant
            decimal(n as nat) == decimal(m as nat).subrange(0, decimal(m as nat).len() - 1) + suffix,
            decimal(m as nat).last() == suffix[0],
            suffix.len() == rev@.len(),
            forall|k: int| 0 <= k < rev@.len() ==> rev@[k] == suffix[suffix.len() - 1 - k],
            suffix.len() >= 1,
        decreases m,
    {
        let ghost old_m = m;
        m = m / 10;
        let c = digit(m % 10);
        rev.push(c);
        proof {
            assert(decimal(old_m as nat) == decimal(m as nat).push(digit_char((old_m % 10) as nat)));
            let d = decimal(m as nat);
            assert(d.len() >= 1) by {
                reveal_with_fuel(decimal, 2);
            }
            assert(d.last() == digit_char((m % 10) as nat)) by {
                reveal_with_fuel(decimal, 2);
            }
            let new_suffix = seq![d.last()] + suffix;
            assert(decimal(old_m as nat).subrange(0, decimal(old_m as nat).len() - 1) =~= d);
            assert(d =~= d.subrange(0, d.len() - 1).push(d.last()));
            assert(decimal(n as nat) =~= d.subrange(0, d.len() - 1) + new_suffix);
            suffix = new_suffix;
        }
    }
    proof {
        assert(decimal(m as nat).len() == 1);
        assert(decimal(n as nat) =~= suffix);
    }
    let mut out: Vec<char> = Vec::new();
    let mut i: usize = rev.len();
    while i > 0
        invariant
            i <= rev@.len(),
            rev@.len() == suffix.len(),
            forall|k: int| 0 <= k < rev@.len() ==> rev@[k] == suffix[suffix.len() - 1 - k],
            out@ == suffix.subrange(0, (rev@.len() - i) as int),
        decreases i,
    {
        i = i - 1;
        out.push(rev[i]);
        assert(out@ =~= suffix.subrange(0, (rev@.len() - i) as int));
    }
    assert(out@ =~= suffix);
    string_from_chars(&out)
}

} // verus!

verus! {

/// The views of a sequence of strings.
pub open spec fn views(v: Seq<String>) -> Seq<Seq<char>> {
    v.map_values(|s: String| s@)
}

/// Whether one of the strings in `v` equals `x`.
pub fn contains_str(v: &Vec<String>, x: &str) -> (r: bool)
    ensures
        r == views(v@).contains(x@),
{
    let mut i: usize = 0;
    while i < v.len()
        invariant
            i <= v.len(),
            forall|j: int| 0 <= j < i ==> v@[j]@ != x@,
        decreases v.len() - i,
    {
        if str_eq(v[i].as_str(), x) {
            assert(views(v@)[i as int] == x@);
            return true;
        }
        i = i + 1;
    }
    assert forall|j: int| 0 <= j < views(v@).len() implies views(v@)[j] != x@ by {
        assert(views(v@)[j] == v@[j]@);
    }
    false
}

} // verus!

verus! {

/// Removes every string equal to `x` from `v`, keeping the order of the rest.
pub fn remove_all_str(v: &mut Vec<String>, x: &str)
    ensures
        views(final(v)@) == views(old(v)@).filter(|s: Seq<char>| s != x@),
{
    let ghost orig = views(v@);
    let mut rest: Vec<String> = Vec::new();
    std::mem::swap(&mut rest, v);
    let ghost mut n: int = 0;
    while rest.len() > 0
        invariant
            0 <= n <= orig.len(),
            views(rest@) == orig.subrange(n, orig.len() as int),
            views(v@) == orig.subrange(0, n).filter(|s: Seq<char>| s != x@),
        decreases rest@.len(),
    {
        let ghost pre = rest@;
        assert(views(pre).len() == pre.len());
        let s = rest.remove(0);
        proof {
            reveal_with_fuel(Seq::<_>::filter, 1);
            assert(orig.subrange(0, n + 1).drop_last() =~= orig.subrange(0, n));
            assert(orig[n] == s@) by {
                assert(views(pre)[0] == pre[0]@);
            }
        }
        if !str_eq(s.as_str(), x) {
            let ghost before = views(v@);
            v.push(s);
            assert(views(v@) =~= before.push(orig[n]));
        }
        proof {
            assert forall|k: int| 0 <= k < rest@.len() implies views(rest@)[k] == orig[n + 1 + k] by {
                assert(rest@[k] == pre[k + 1]);
                assert(views(pre)[k + 1] == pre[k + 1]@);
            }
            n = n + 1;
            assert(views(rest@) =~= orig.subrange(n, orig.len() as int));
        }
    }
    assert(orig.subrange(0, n) =~= orig);
}

} // verus!

verus! {

/// The lowercase hexadecimal digit of `d`.
pub open spec fn hex_char(d: nat) -> char
    recommends
        d < 16,
{
    if d < 10 {
        ((48 + d) as u8) as char
    } else {
        ((87 + d) as u8) as char
    }
}

/// The last `k` hexadecimal digits of `n`, most significant first,
/// zero-padded.
pub open spec fn hex_digits(n: nat, k: nat) -> Seq<char>
    decreases k,
{
    if k == 0 {
        Seq::empty()
    } else {
        hex_digits(n / 16, (k - 1) as nat).push(hex_char(n % 16))
    }
}

/// Lowercase hexadecimal encoding of bytes, two digits per byte.
pub open spec fn hex_lower(bytes: Seq<u8>) -> Seq<char>
    decreases bytes.len(),
{
    if bytes.len() == 0 {
        Seq::empty()
    } else {
        hex_lower(bytes.drop_last()) + hex_digits(bytes.last() as nat, 2)
    }
}

fn hex_digit(d: u64) -> (c: char)
    requires
        d < 16,
    ensures
        c == hex_char(d as nat),
{
    if d < 10 {
        let b: u8 = 48u8 + (d as u8);
        b as char
    } else {
        let b: u8 = 87u8 + (d as u8);
        b as char
    }
}

/// The 16 lowercase hexadecimal digits of `n`, zero-padded (`{:016x}`).
pub fn hex16(n: u64) -> (s: String)
    ensures
        s@ == hex_digits(n as nat, 16),
        s@.len() == 16,
{
    let mut rev: Vec<char> = Vec::new();
    let mut m: u64 = n;
    let mut k: usize = 0;
    while k < 16
        invariant
            k <= 16,
            rev@.len() == k,
            // hex_digits(n, 16) == hex_digits(m, 16 - k) + reverse(rev)
            hex_digits(n as nat, 16) == hex_digits(m as nat, (16 - k) as nat)
                + Seq::new(k as nat, |j: int| rev@[k - 1 - j]),
        decreases 16 - k,
    {
        let ghost old_rev = rev@;
        let ghost old_m = m;
        let c = hex_digit(m % 16);
        rev.push(c);
        m = m / 16;
        k = k + 1;
        proof {
            let t = (16 - k) as nat;
            assert(hex_digits(old_m as nat, t + 1) == hex_digits(m as nat, t).push(hex_char((old_m % 16) as nat)));
            assert(Seq::new(k as nat, |j: int| rev@[k - 1 - j])
                =~= seq![hex_char((old_m % 16) as nat)] + Seq::new((k - 1) as nat, |j: int| old_rev[k - 2 - j]));
            assert(hex_digits(n as nat, 16) =~= hex_digits(m as nat, t)
                + Seq::new(k as nat, |j: int| rev@[k - 1 - j]));
        }
    }
    let mut out: Vec<char> = Vec::new();
    let mut i: usize = 16;
    while i > 0
        invariant
            i <= 16,
            rev@.len() == 16,
            out@ == Seq::new((16 - i) as nat, |j: int| rev@[15 - j]),
        decreases i,
    {
        i = i - 1;
        out.push(rev[i]);
        assert(out@ =~= Seq::new((16 - i) as nat, |j: int| rev@[15 - j]));
    }
    assert(hex_digits(m as nat, 0) =~= Seq::<char>::empty());
    assert(out@ =~= hex_digits(n as nat, 16));
    string_from_chars(&out)
}

} // verus!

verus! {

/// The last `k` bytes of `n` in big-endian order.
pub open spec fn be_bytes(n: nat, k: nat) -> Seq<u8>
    decreases k,
{
    if k == 0 {
        Seq::empty()
    } else {
        be_bytes(n / 256, (k - 1) as nat).push((n % 256) as u8)
    }
}

/// The 8 big-endian bytes of `n` (`u64::to_be_bytes`).
pub fn u64_be_bytes(n: u64) -> (v: Vec<u8>)
    ensures
        v@ == be_bytes(n as nat, 8),
{
    let mut v: Vec<u8> = vec![0u8, 0u8, 0u8, 0u8, 0u8, 0u8, 0u8, 0u8];
    let mut m: u64 = n;
    let mut k: usize = 0;
    while k < 8
        invariant
            k <= 8,
            v@.len() == 8,
            be_bytes(n as nat, 8) == be_bytes(m as nat, (8 - k) as nat) + v@.subrange(8 - k, 8),
        decreases 8 - k,
    {
        let ghost old_m = m;
        let ghost old_v = v@;
        v.set(7 - k, (m % 256) as u8);
        m = m / 256;
        k = k + 1;
        proof {
            let t = (8 - k) as nat;
            assert(be_bytes(old_m as nat, t + 1) == be_bytes(m as nat, t).push((old_m % 256) as u8));
            assert(v@.subrange(8 - k, 8) =~= seq![(old_m % 256) as u8] + old_v.subrange(8 - k + 1, 8));
            assert(be_bytes(n as nat, 8) =~= be_bytes(m as nat, t) + v@.subrange(8 - k, 8));
        }
    }
    assert(be_bytes(m as nat, 0) =~= Seq::<u8>::empty());
    assert(v@.subrange(0, 8) =~= v@);
    v
}

/// Appends the bytes of `s` to `v`.
pub fn append_bytes(v: &mut Vec<u8>, s: &[u8])
    ensures
        final(v)@ == old(v)@ + s@,
{
    let mut i: usize = 0;
    while i < s.len()
        invariant
            i <= s@.len(),
            v@ == old(v)@ + s@.subrange(0, i as int),
        decreases s@.len() - i,
    {
        v.push(s[i]);
        i = i + 1;
        assert(v@ =~= old(v)@ + s@.subrange(0, i as int));
    }
    assert(s@.subrange(0, i as int) =~= s@);
}

} // verus!

verus! {

/// Distinct digits have distinct characters.
pub proof fn lemma_digit_char_injective(x: nat, y: nat)
    requires
        x < 10,
        y < 10,
    ensures
        digit_char(x) == digit_char(y) ==> x == y,
{
    assert(digit_char(x) as u32 == 48 + x);
    assert(digit_char(y) as u32 == 48 + y);
}

/// A number below 10 has one digit, any other at least two.
pub proof fn lemma_decimal_len(n: nat)
    ensures
        n < 10 ==> decimal(n).len() == 1,
        n >= 10 ==> decimal(n).len() >= 2,
    decreases n,
{
    if n >= 10 {
        lemma_decimal_len(n / 10);
    }
}

} // verus!

verus! {

/// Whether `c` has the Unicode White_Space property.
pub open spec fn is_white_space(c: char) -> bool {
    let u = c as u32;
    (0x9 <= u && u <= 0xd) || u == 0x20 || u == 0x85 || u == 0xa0 || u == 0x1680
        || (0x2000 <= u && u <= 0x200a) || u == 0x2028 || u == 0x2029 || u == 0x202f
        || u == 0x205f || u == 0x3000
}

/// `s` without its leading white space.
pub open spec fn trim_start_spec(s: Seq<char>) -> Seq<char>
    decreases s.len(),
{
    if s.len() > 0 && is_white_space(s[0]) {
        trim_start_spec(s.subrange(1, s.len() as int))
    } else {
        s
    }
}

/// `s` without its trailing white space.
pub open spec fn trim_end_spec(s: Seq<char>) -> Seq<char>
    decreases s.len(),
{
    if s.len() > 0 && is_white_space(s.last()) {
        trim_end_spec(s.drop_last())
    } else {
        s
    }
}

/// `s` without leading and trailing white space.
pub open spec fn trim_spec(s: Seq<char>) -> Seq<char> {
    trim_end_spec(trim_start_spec(s))
}

/// Whether `c` is white space (`char::is_whitespace`): std defines it as the
/// Unicode White_Space property, whose code points `is_white_space` lists.
#[verifier::external_body]
fn char_is_whitespace(c: char) -> (r: bool)
    ensures
        r == is_white_space(c),
{
    c.is_whitespace()
}

/// The text without leading and trailing white space (`str::trim`).
pub fn trim(s: &str) -> (r: String)
    ensures
        r@ == trim_spec(s@),
{
    let v = chars_of(s);
    let n = v.len();
    let mut i: usize = 0;
    assert(s@.subrange(0, n as int) =~= s@);
    while i < n && char_is_whitespace(v[i])
        invariant
            v@ == s@,
            n == v@.len(),
            i <= n,
            trim_start_spec(s@) == trim_start_spec(s@.subrange(i as int, n as int)),
        decreases n - i,
    {
        proof {
            let t = s@.subrange(i as int, n as int);
            assert(t.subrange(1, t.len() as int) =~= s@.subrange(i + 1, n as int));
        }
        i = i + 1;
    }
    proof {
        assert(s@.subrange(0, n as int) =~= s@);
    }
    let ghost t = s@.subrange(i as int, n as int);
    assert(trim_start_spec(s@) == t) by {
        if i < n {
            assert(!is_white_space(t[0]));
        } else {
            assert(t.len() == 0);
        }
    }
    let mut j: usize = n;
    while j > i && char_is_whitespace(v[j - 1])
        invariant
            v@ == s@,
            n == v@.len(),
            i <= j <= n,
            t == s@.subrange(i as int, n as int),
            trim_end_spec(t) == trim_end_spec(s@.subrange(i as int, j as int)),
        decreases j,
    {
        proof {
            let u = s@.subrange(i as int, j as int);
            assert(u.drop_last() =~= s@.subrange(i as int, j - 1));
        }
        j = j - 1;
    }
    let ghost u = s@.subrange(i as int, j as int);
    assert(trim_end_spec(u) == u) by {
        if j > i {
            assert(u.last() == v@[j - 1]);
        }
    }
    let mut out: Vec<char> = Vec::new();
    let mut k: usize = i;
    while k < j
        invariant
            v@ == s@,
            i <= k <= j,
            j <= v@.len(),
            out@ == s@.subrange(i as int, k as int),
        decreases j - k,
    {
        out.push(v[k]);
        k = k + 1;
        assert(out@ =~= s@.subrange(i as int, k as int));
    }
    string_from_chars(&out)
}

} // verus!

verus! {

/// The decimal representation of a signed integer.
pub open spec fn decimal_signed(n: int) -> Seq<char> {
    if n < 0 {
        "-"@ + decimal((-n) as nat)
    } else {
        decimal(n as nat)
    }
}

/// The decimal representation of a signed integer (`i64::to_string`).
pub fn i64_to_decimal(n: i64) -> (s: String)
    ensures
        s@ == decimal_signed(n as int),
{
    if n < 0 {
        let m: u64 = if n == i64::MIN { 0x8000_0000_0000_0000u64 } else { (-n) as u64 };
        let d = u64_to_decimal(m);
        concat("-", d.as_str())
    } else {
        u64_to_decimal(n as u64)
    }
}

/// The text before the first `sep`, or all of it when `sep` does not occur
/// (`split(sep).next()`).
pub open spec fn before_first(s: Seq<char>, sep: char) -> Seq<char>
    decreases s.len(),
{
    if s.len() == 0 || s[0] == sep {
        Seq::empty()
    } else {
        seq![s[0]] + before_first(s.subrange(1, s.len() as int), sep)
    }
}

/// The text before the first `sep`.
pub fn prefix_before(s: &str, sep: char) -> (r: String)
    ensures
        r@ == before_first(s@, sep),
{
    let v = chars_of(s);
    let mut out: Vec<char> = Vec::new();
    let mut i: usize = 0;
    assert(s@.subrange(0, s@.len() as int) =~= s@);
    while i < v.len() && v[i] != sep
        invariant
            v@ == s@,
            i <= v@.len(),
            out@ == s@.subrange(0, i as int),
            before_first(s@, sep) == out@ + before_first(s@.subrange(i as int, s@.len() as int), sep),
        decreases v@.len() - i,
    {
        proof {
            let t = s@.subrange(i as int, s@.len() as int);
            assert(t.subrange(1, t.len() as int) =~= s@.subrange(i + 1, s@.len() as int));
            assert(out@.push(v@[i as int]) + before_first(s@.subrange(i + 1, s@.len() as int), sep)
                =~= out@ + before_first(t, sep));
        }
        out.push(v[i]);
        i = i + 1;
        assert(out@ =~= s@.subrange(0, i as int));
    }
    assert(before_first(s@.subrange(i as int, s@.len() as int), sep) =~= Seq::<char>::empty());
    assert(out@ + Seq::<char>::empty() =~= out@);
    string_from_chars(&out)
}

/// The upper-case form of a text.
pub uninterp spec fn to_uppercase_spec(s: Seq<char>) -> Seq<char>;

/// The upper-case form of a text (`str::to_uppercase`), named by
/// `to_uppercase_spec`: Unicode case mapping is a function of the text.
#[verifier::external_body]
pub(crate) fn to_uppercase(s: &str) -> (r: String)
    ensures
        r@ == to_uppercase_spec(s@),
{
    s.to_uppercase()
}

} // verus!

verus! {

/// The `k` big-endian bytes of `n`, for `k` up to 16.
pub fn be_bytes_of(n: u128, k: usize) -> (v: Vec<u8>)
    requires
        k <= 16,
    ensures
        v@ == be_bytes(n as nat, k as nat),
{
    let mut v: Vec<u8> = Vec::new();
    let mut j: usize = 0;
    while j < k
        invariant
            j <= k,
            v@.len() == j,
        decreases k - j,
    {
        v.push(0u8);
        j = j + 1;
    }
    let mut m: u128 = n;
    let mut i: usize = 0;
    while i < k
        invariant
            i <= k,
            v@.len() == k,
            be_bytes(n as nat, k as nat) == be_bytes(m as nat, (k - i) as nat) + v@.subrange(k - i, k as int),
        decreases k - i,
    {
        let ghost old_m = m;
        let ghost old_v = v@;
        v.set(k - 1 - i, (m % 256) as u8);
        m = m / 256;
        i = i + 1;
        proof {
            let t = (k - i) as nat;
            assert(be_bytes(old_m as nat, t + 1) == be_bytes(m as nat, t).push((old_m % 256) as u8));
            assert(v@.subrange(k - i, k as int) =~= seq![(old_m % 256) as u8] + old_v.subrange(k - i + 1, k as int));
            assert(be_bytes(n as nat, k as nat) =~= be_bytes(m as nat, t) + v@.subrange(k - i, k as int));
        }
    }
    assert(be_bytes(m as nat, 0) =~= Seq::<u8>::empty());
    assert(v@.subrange(0, k as int) =~= v@);
    v
}

} // verus!
