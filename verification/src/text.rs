use vstd::prelude::*;

verus! {

/// The lower-case hexadecimal digit of `n`, for `n < 16`.
pub open spec fn hex_digit(n: int) -> char {
    if n < 10 {
        (n + 48) as char
    } else {
        (n + 87) as char
    }
}

/// A byte as two lower-case hexadecimal digits, as `{:02x}` writes it.
pub open spec fn hex_byte(b: u8) -> Seq<char> {
    seq![hex_digit(b as int / 16), hex_digit(b as int % 16)]
}

/// Bytes as lower-case hexadecimal, two digits per byte, no prefix.
pub open spec fn hex_bytes(bytes: Seq<u8>) -> Seq<char>
    decreases bytes.len(),
{
    if bytes.len() == 0 {
        Seq::empty()
    } else {
        hex_bytes(bytes.drop_last()) + hex_byte(bytes.last())
    }
}

/// The decimal digit of `n`, for `n < 10`.
pub open spec fn decimal_digit(n: int) -> char {
    (n + 48) as char
}

/// `n` in decimal, without sign or leading zeros ("0" for zero).
pub open spec fn decimal(n: nat) -> Seq<char>
    decreases n,
{
    if n < 10 {
        seq![decimal_digit(n as int)]
    } else {
        decimal(n / 10).push(decimal_digit((n % 10) as int))
    }
}

/// A decimal digit.
pub open spec fn is_decimal_digit(c: char) -> bool {
    '0' <= c && c <= '9'
}

/// The value of a run of decimal digits.
pub open spec fn digits_value(digits: Seq<char>) -> nat
    decreases digits.len(),
{
    if digits.len() == 0 {
        0
    } else {
        digits_value(digits.drop_last()) * 10 + ((digits.last() as nat) - 48) as nat
    }
}

/// What `str::parse::<u64>` makes of a text: an optional `+` followed by one
/// or more decimal digits whose value fits in a `u64`; anything else fails.
pub open spec fn parsed_u64(text: Seq<char>) -> Option<u64> {
    let digits = if text.len() > 0 && text[0] == '+' {
        text.drop_first()
    } else {
        text
    };
    if digits.len() > 0 && (forall|i: int| 0 <= i < digits.len() ==> is_decimal_digit(digits[i]))
        && digits_value(digits) <= u64::MAX {
        Some(digits_value(digits) as u64)
    } else {
        None
    }
}

/// What `str::parse::<i64>` makes of a text: an optional `+` or `-`
/// followed by one or more decimal digits whose signed value fits in an
/// `i64`; anything else fails.
pub open spec fn parsed_i64(text: Seq<char>) -> Option<i64> {
    let negative = text.len() > 0 && text[0] == '-';
    let digits = if text.len() > 0 && (text[0] == '+' || text[0] == '-') {
        text.drop_first()
    } else {
        text
    };
    if digits.len() > 0 && (forall|i: int| 0 <= i < digits.len() ==> is_decimal_digit(digits[i])) {
        if negative && digits_value(digits) <= 0x8000_0000_0000_0000 {
            Some((0 - digits_value(digits)) as i64)
        } else if !negative && digits_value(digits) <= i64::MAX {
            Some(digits_value(digits) as i64)
        } else {
            None
        }
    } else {
        None
    }
}

/// Appends `c` to `s` (`String::push`).
///
/// Claimed of std: afterwards the string holds its old characters followed
/// by `c`.
#[verifier::external_body]
pub(crate) fn push_char(s: &mut String, c: char)
    ensures
        final(s)@ == old(s)@.push(c),
{
    s.push(c);
}

/// The hexadecimal digit of `n`.
fn hex_digit_char(n: u8) -> (c: char)
    requires
        n < 16,
    ensures
        c == hex_digit(n as int),
{
    if n < 10 {
        (n + 48) as char
    } else {
        (n + 87) as char
    }
}

/// Appends the lower-case hexadecimal form of `bytes` to `s`.
pub fn push_hex(s: &mut String, bytes: &[u8])
    ensures
        final(s)@ == old(s)@ + hex_bytes(bytes@),
{
    let ghost start = s@;
    let mut i: usize = 0;
    while i < bytes.len()
        invariant
            i <= bytes@.len(),
            s@ == start + hex_bytes(bytes@.subrange(0, i as int)),
        decreases bytes@.len() - i,
    {
        let b = bytes[i];
        push_char(s, hex_digit_char(b / 16));
        push_char(s, hex_digit_char(b % 16));
        proof {
            let next = bytes@.subrange(0, i + 1);
            assert(next.drop_last() =~= bytes@.subrange(0, i as int));
            assert(next.last() == b);
        }
        i = i + 1;
    }
    proof {
        assert(bytes@.subrange(0, bytes@.len() as int) =~= bytes@);
    }
}

/// `n` in decimal, as `{}` writes a `u64`.
pub fn u64_decimal(n: u64) -> (s: String)
    ensures
        s@ == decimal(n as nat),
    decreases n,
{
    if n < 10 {
        let mut s = String::new();
        push_char(&mut s, ((n as u8) + 48) as char);
        s
    } else {
        let mut s = u64_decimal(n / 10);
        push_char(&mut s, (((n % 10) as u8) + 48) as char);
        s
    }
}

/// Whether `a` reads exactly `b`.
pub fn text_eq(a: &String, b: &str) -> (r: bool)
    ensures
        r == (a@ == b@),
{
    let other = String::from_str(b);
    a.eq(&other)
}

/// Whether `s` begins with `prefix`.
pub open spec fn starts_with(s: Seq<char>, prefix: Seq<char>) -> bool {
    prefix.len() <= s.len() && s.subrange(0, prefix.len() as int) == prefix
}

/// `s` with every occurrence of `from` replaced by `to`, scanning from the
/// left and not overlapping (`str::replace`, for a non-empty `from`).
pub open spec fn replace_all(s: Seq<char>, from: Seq<char>, to: Seq<char>) -> Seq<char>
    decreases s.len(),
{
    if from.len() == 0 || s.len() == 0 {
        s
    } else if starts_with(s, from) {
        to + replace_all(s.skip(from.len() as int), from, to)
    } else {
        seq![s[0]] + replace_all(s.drop_first(), from, to)
    }
}

/// The characters of `s`.
pub fn chars_of(s: &str) -> (v: Vec<char>)
    ensures
        v@ == s@,
{
    let n = s.unicode_len();
    let mut v: Vec<char> = Vec::new();
    let mut i: usize = 0;
    while i < n
        invariant
            n == s@.len(),
            i <= n,
            v@ == s@.subrange(0, i as int),
        decreases n - i,
    {
        v.push(s.get_char(i));
        i = i + 1;
        proof {
            assert(v@ =~= s@.subrange(0, i as int));
        }
    }
    proof {
        assert(s@.subrange(0, n as int) =~= s@);
    }
    v
}

/// A string of the given characters.
pub fn string_of_chars(chars: &[char]) -> (s: String)
    ensures
        s@ == chars@,
{
    let mut s = String::new();
    let mut i: usize = 0;
    while i < chars.len()
        invariant
            i <= chars@.len(),
            s@ == chars@.subrange(0, i as int),
        decreases chars@.len() - i,
    {
        push_char(&mut s, chars[i]);
        i = i + 1;
        proof {
            assert(s@ =~= chars@.subrange(0, i as int));
        }
    }
    proof {
        assert(chars@.subrange(0, chars@.len() as int) =~= chars@);
    }
    s
}

/// Whether `s` has `p` at position `at`.
fn matches_at(s: &Vec<char>, at: usize, p: &Vec<char>) -> (b: bool)
    requires
        at <= s@.len(),
    ensures
        b == starts_with(s@.skip(at as int), p@),
{
    let n = s.len();
    if p.len() > n - at {
        return false;
    }
    let mut j: usize = 0;
    while j < p.len()
        invariant
            n == s@.len(),
            at + p@.len() <= s@.len(),
            j <= p@.len(),
            forall|k: int| 0 <= k < j ==> s@[at + k] == p@[k],
        decreases p@.len() - j,
    {
        if s[at + j] != p[j] {
            proof {
                assert(s@.skip(at as int).subrange(0, p@.len() as int)[j as int] != p@[j as int]);
            }
            return false;
        }
        j = j + 1;
    }
    proof {
        assert(s@.skip(at as int).subrange(0, p@.len() as int) =~= p@);
    }
    true
}

/// Whether `s` begins with `prefix` (`str::starts_with`).
pub fn text_starts_with(s: &str, prefix: &str) -> (b: bool)
    ensures
        b == starts_with(s@, prefix@),
{
    let sc = chars_of(s);
    let pc = chars_of(prefix);
    proof {
        assert(sc@.skip(0) =~= sc@);
    }
    matches_at(&sc, 0, &pc)
}

/// `s` with every occurrence of a non-empty `from` replaced by `to`
/// (`str::replace`).
pub fn replace_text(s: &str, from: &str, to: &str) -> (r: String)
    requires
        from@.len() > 0,
    ensures
        r@ == replace_all(s@, from@, to@),
{
    let sc = chars_of(s);
    let fc = chars_of(from);
    let tc = chars_of(to);
    let mut out: Vec<char> = Vec::new();
    let mut i: usize = 0;
    proof {
        assert(sc@.skip(0) =~= sc@);
    }
    while i < sc.len()
        invariant
            fc@ == from@,
            tc@ == to@,
            sc@ == s@,
            from@.len() > 0,
            i <= sc@.len(),
            replace_all(s@, from@, to@) == out@ + replace_all(s@.skip(i as int), from@, to@),
        decreases sc@.len() - i,
    {
        let ghost rest = s@.skip(i as int);
        if matches_at(&sc, i, &fc) {
            let mut j: usize = 0;
            let ghost before = out@;
            while j < tc.len()
                invariant
                    j <= tc@.len(),
                    out@ == before + tc@.subrange(0, j as int),
                decreases tc@.len() - j,
            {
                out.push(tc[j]);
                j = j + 1;
                proof {
                    assert(out@ =~= before + tc@.subrange(0, j as int));
                }
            }
            proof {
                assert(tc@.subrange(0, tc@.len() as int) =~= tc@);
                assert(rest.skip(from@.len() as int) =~= s@.skip(i + fc@.len()));
                assert(out@ + replace_all(s@.skip(i + fc@.len()), from@, to@) =~= before + (to@
                    + replace_all(rest.skip(from@.len() as int), from@, to@)));
            }
            i = i + fc.len();
        } else {
            let ghost before = out@;
            out.push(sc[i]);
            proof {
                assert(rest[0] == sc@[i as int]);
                assert(rest.drop_first() =~= s@.skip(i + 1));
                assert(out@ + replace_all(s@.skip(i + 1), from@, to@) =~= before + (seq![rest[0]]
                    + replace_all(rest.drop_first(), from@, to@)));
            }
            i = i + 1;
        }
    }
    proof {
        assert(s@.skip(i as int).len() == 0);
        assert(out@ + replace_all(s@.skip(i as int), from@, to@) =~= out@);
    }
    string_of_chars(out.as_slice())
}

/// Two hexadecimal digits per byte.
pub proof fn lemma_hex_bytes_len(bytes: Seq<u8>)
    ensures
        hex_bytes(bytes).len() == 2 * bytes.len(),
    decreases bytes.len(),
{
    if bytes.len() > 0 {
        lemma_hex_bytes_len(bytes.drop_last());
    }
}

/// Different digit values give different hexadecimal digits.
proof fn lemma_hex_digit_injective(a: int, b: int)
    requires
        0 <= a < 16,
        0 <= b < 16,
        hex_digit(a) == hex_digit(b),
    ensures
        a == b,
{
    let ca = if a < 10 { a + 48 } else { a + 87 };
    let cb = if b < 10 { b + 48 } else { b + 87 };
    assert(hex_digit(a) as int == ca);
    assert(hex_digit(b) as int == cb);
}

/// Bytes of one length with the same hexadecimal text are the same bytes.
pub proof fn lemma_hex_bytes_injective(a: Seq<u8>, b: Seq<u8>)
    requires
        a.len() == b.len(),
        hex_bytes(a) == hex_bytes(b),
    ensures
        a == b,
    decreases a.len(),
{
    if a.len() > 0 {
        let n = a.len() as int;
        lemma_hex_bytes_len(a.drop_last());
        lemma_hex_bytes_len(b.drop_last());
        let ha = hex_bytes(a.drop_last());
        let hb = hex_bytes(b.drop_last());
        assert(hex_bytes(a) == ha + hex_byte(a.last()));
        assert(hex_bytes(b) == hb + hex_byte(b.last()));
        assert(ha =~= hex_bytes(a).subrange(0, 2 * n - 2));
        assert(hb =~= hex_bytes(b).subrange(0, 2 * n - 2));
        lemma_hex_bytes_injective(a.drop_last(), b.drop_last());
        assert(hex_bytes(a)[2 * n - 2] == hex_digit(a.last() as int / 16));
        assert(hex_bytes(b)[2 * n - 2] == hex_digit(b.last() as int / 16));
        assert(hex_bytes(a)[2 * n - 1] == hex_digit(a.last() as int % 16));
        assert(hex_bytes(b)[2 * n - 1] == hex_digit(b.last() as int % 16));
        lemma_hex_digit_injective(a.last() as int / 16, b.last() as int / 16);
        lemma_hex_digit_injective(a.last() as int % 16, b.last() as int % 16);
        assert(a.last() == b.last());
        assert(a =~= a.drop_last().push(a.last()));
        assert(b =~= b.drop_last().push(b.last()));
    }
}

/// A decimal text has at least one digit, and two or more from ten on.
proof fn lemma_decimal_len(n: nat)
    ensures
        decimal(n).len() >= 1,
        n >= 10 ==> decimal(n).len() >= 2,
    decreases n,
{
    if n >= 10 {
        lemma_decimal_len(n / 10);
    }
}

/// Different numbers have different decimal texts.
pub proof fn lemma_decimal_injective(n: nat, m: nat)
    requires
        decimal(n) == decimal(m),
    ensures
        n == m,
    decreases n,
{
    lemma_decimal_len(n);
    lemma_decimal_len(m);
    lemma_decimal_len(n / 10);
    lemma_decimal_len(m / 10);
    if n < 10 && m < 10 {
        assert(decimal(n)[0] as int == n + 48);
        assert(decimal(m)[0] as int == m + 48);
    } else if n >= 10 && m >= 10 {
        let dn = decimal(n);
        let dm = decimal(m);
        assert(decimal(n / 10) =~= dn.drop_last());
        assert(decimal(m / 10) =~= dm.drop_last());
        lemma_decimal_injective(n / 10, m / 10);
        assert(dn.last() as int == n % 10 + 48);
        assert(dm.last() as int == m % 10 + 48);
    } else {
        assert(decimal(n).len() != decimal(m).len());
    }
}

/// Byte `i` of `bytes` is written at positions `2 * i` (high nibble) and
/// `2 * i + 1` (low nibble) of its hexadecimal text.
pub proof fn lemma_hex_bytes_index(bytes: Seq<u8>)
    ensures
        hex_bytes(bytes).len() == 2 * bytes.len(),
        forall|i: int|
            0 <= i < bytes.len() ==> hex_bytes(bytes)[2 * i] == hex_digit(
                #[trigger] bytes[i] as int / 16,
            ) && hex_bytes(bytes)[2 * i + 1] == hex_digit(bytes[i] as int % 16),
    decreases bytes.len(),
{
    lemma_hex_bytes_len(bytes);
    if bytes.len() > 0 {
        let prev = bytes.drop_last();
        lemma_hex_bytes_index(prev);
        lemma_hex_bytes_len(prev);
        assert(hex_bytes(bytes) == hex_bytes(prev) + hex_byte(bytes.last()));
        assert forall|i: int| 0 <= i < bytes.len() implies hex_bytes(bytes)[2 * i] == hex_digit(
            #[trigger] bytes[i] as int / 16,
        ) && hex_bytes(bytes)[2 * i + 1] == hex_digit(bytes[i] as int % 16) by {
            if i < bytes.len() - 1 {
                assert(prev[i] == bytes[i]);
            }
        }
    }
}

} // verus!
