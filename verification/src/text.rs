//! Text: equality, byte order, prefixes and decimal numerals.
use vstd::prelude::*;
use vstd::string::*;
use vstd::utf8::*;

verus! {

/// `a` comes strictly before `b` in lexicographic byte order.
pub open spec fn bytes_precede(a: Seq<u8>, b: Seq<u8>) -> bool
    decreases a.len(),
{
    if b.len() == 0 {
        false
    } else if a.len() == 0 {
        true
    } else if a[0] != b[0] {
        a[0] < b[0]
    } else {
        bytes_precede(a.drop_first(), b.drop_first())
    }
}

/// `a` comes strictly before `b` in the order of `str`, which is the order of the UTF-8 bytes.
pub open spec fn text_precedes(a: Seq<char>, b: Seq<char>) -> bool {
    bytes_precede(encode_utf8(a), encode_utf8(b))
}

/// Byte order is total: two different byte strings are ordered one way or the other.
pub(crate) proof fn lemma_bytes_total(a: Seq<u8>, b: Seq<u8>)
    ensures
        a == b || bytes_precede(a, b) || bytes_precede(b, a),
    decreases a.len(),
{
    if a.len() > 0 && b.len() > 0 && a[0] == b[0] {
        lemma_bytes_total(a.drop_first(), b.drop_first());
        if a.drop_first() == b.drop_first() {
            assert(a =~= seq![a[0]] + a.drop_first());
            assert(b =~= seq![b[0]] + b.drop_first());
        }
    } else if a.len() == 0 && b.len() == 0 {
        assert(a =~= b);
    }
}

/// Byte order is strict: no two byte strings each come before the other, and none before itself.
pub(crate) proof fn lemma_bytes_asymmetric(a: Seq<u8>, b: Seq<u8>)
    ensures
        !(bytes_precede(a, b) && bytes_precede(b, a)),
    decreases a.len(),
{
    if a.len() > 0 && b.len() > 0 && a[0] == b[0] {
        lemma_bytes_asymmetric(a.drop_first(), b.drop_first());
    }
}

/// Byte order is transitive.
pub(crate) proof fn lemma_bytes_transitive(a: Seq<u8>, b: Seq<u8>, c: Seq<u8>)
    requires
        bytes_precede(a, b),
        bytes_precede(b, c),
    ensures
        bytes_precede(a, c),
    decreases a.len(),
{
    if a.len() > 0 && a[0] == b[0] && b[0] == c[0] {
        lemma_bytes_transitive(a.drop_first(), b.drop_first(), c.drop_first());
    }
}

/// Texts with the same bytes are the same.
pub(crate) proof fn lemma_utf8_injective(a: Seq<char>, b: Seq<char>)
    requires
        encode_utf8(a) == encode_utf8(b),
    ensures
        a == b,
{
    encode_utf8_decode_utf8(a);
    encode_utf8_decode_utf8(b);
}

/// Whether two texts are equal.
pub(crate) fn same_text(a: &str, b: &str) -> (r: bool)
    ensures
        r == (a@ == b@),
{
    let x: &[u8] = a.as_bytes();
    let y: &[u8] = b.as_bytes();
    if x.len() != y.len() {
        return false;
    }
    let mut i: usize = 0;
    while i < x.len()
        invariant
            i <= x@.len(),
            x@.len() == y@.len(),
            x@ == a.spec_bytes(),
            y@ == b.spec_bytes(),
            forall|k: int| 0 <= k < i ==> x@[k] == y@[k],
        decreases x@.len() - i,
    {
        if x[i] != y[i] {
            return false;
        }
        i = i + 1;
    }
    proof {
        assert(x@ =~= y@);
        lemma_utf8_injective(a@, b@);
    }
    true
}

/// Whether `a` comes strictly before `b` in the order of `str`.
pub(crate) fn precedes(a: &str, b: &str) -> (r: bool)
    ensures
        r == text_precedes(a@, b@),
{
    let x: &[u8] = a.as_bytes();
    let y: &[u8] = b.as_bytes();
    let mut i: usize = 0;
    proof {
        assert(x@.skip(0) =~= x@);
        assert(y@.skip(0) =~= y@);
    }
    while i < x.len() && i < y.len()
        invariant
            i <= x@.len(),
            i <= y@.len(),
            x@ == a.spec_bytes(),
            y@ == b.spec_bytes(),
            bytes_precede(x@, y@) == bytes_precede(x@.skip(i as int), y@.skip(i as int)),
        decreases x@.len() - i,
    {
        if x[i] != y[i] {
            return x[i] < y[i];
        }
        proof {
            assert(x@.skip(i as int).drop_first() =~= x@.skip(i + 1));
            assert(y@.skip(i as int).drop_first() =~= y@.skip(i + 1));
        }
        i = i + 1;
    }
    i < y.len()
}

/// `text` continues `head` with a slash, or is `head` itself.
pub open spec fn is_path_under(text: Seq<char>, head: Seq<char>) -> bool {
    text == head || head.push('/').is_prefix_of(text)
}

/// Whether `text` is `head` or continues it with a slash.
pub(crate) fn path_under(text: &str, head: &str) -> (r: bool)
    ensures
        r == is_path_under(text@, head@),
{
    let mut t = text.chars();
    let mut h = head.chars();
    let ghost mut done: Seq<char> = Seq::empty();
    loop
        invariant_except_break
            text@ =~= done + vstd::std_specs::iter::IteratorSpec::remaining(&t),
            head@ =~= done + vstd::std_specs::iter::IteratorSpec::remaining(&h),
            vstd::std_specs::iter::IteratorSpec::decrease(&h) is Some,
        ensures
            text@ =~= done + vstd::std_specs::iter::IteratorSpec::remaining(&t),
            head@ =~= done,
        decreases vstd::std_specs::iter::IteratorSpec::decrease(&h)->0,
    {
        match h.next() {
            None => {
                break;
            },
            Some(c) => match t.next() {
                Some(d) => {
                    if c != d {
                        proof {
                            let k = done.len() as int;
                            assert(text@[k] == d && head@[k] == c);
                            if head@.push('/').is_prefix_of(text@) {
                                assert(head@.push('/')[k] == text@[k]);
                            }
                        }
                        return false;
                    }
                    proof {
                        done = done.push(c);
                    }
                },
                None => {
                    return false;
                },
            },
        }
    }
    match t.next() {
        None => true,
        Some(c) => {
            proof {
                let k = head@.len() as int;
                assert(text@[k] == c);
                if head@.push('/').is_prefix_of(text@) {
                    assert(head@.push('/')[k] == text@[k]);
                }
                if c == '/' {
                    assert(head@.push('/') =~= text@.subrange(0, k + 1));
                }
            }
            c == '/'
        },
    }
}

/// `c` is a hexadecimal digit, in either case.
pub open spec fn is_hex_digit(c: char) -> bool {
    '0' <= c <= '9' || 'a' <= c <= 'f' || 'A' <= c <= 'F'
}

/// `s` is 64 hexadecimal digits, the form of an event id and of a public key.
pub open spec fn is_hex64(s: Seq<char>) -> bool {
    s.len() == 64 && forall|i: int| 0 <= i < s.len() ==> is_hex_digit(#[trigger] s[i])
}

/// Whether `s` is 64 hexadecimal digits.
pub(crate) fn hex64(s: &str) -> (r: bool)
    ensures
        r == is_hex64(s@),
{
    let mut rest = s.chars();
    let mut count: usize = 0;
    let ghost mut done: Seq<char> = Seq::empty();
    loop
        invariant_except_break
            s@ =~= done + vstd::std_specs::iter::IteratorSpec::remaining(&rest),
            done.len() == count,
            count <= 64,
            forall|i: int| 0 <= i < done.len() ==> is_hex_digit(#[trigger] done[i]),
            vstd::std_specs::iter::IteratorSpec::decrease(&rest) is Some,
        ensures
            s@ =~= done,
            done.len() == count,
            forall|i: int| 0 <= i < done.len() ==> is_hex_digit(#[trigger] done[i]),
        decreases vstd::std_specs::iter::IteratorSpec::decrease(&rest)->0,
    {
        match rest.next() {
            None => {
                break;
            },
            Some(c) => {
                assert(s@[done.len() as int] == c);
                if count == 64 || !((c >= '0' && c <= '9') || (c >= 'a' && c <= 'f') || (c >= 'A'
                    && c <= 'F')) {
                    return false;
                }
                count = count + 1;
                proof {
                    done = done.push(c);
                }
            },
        }
    }
    count == 64
}

/// The text behind an optional reference.
pub open spec fn optional_text(s: Option<&str>) -> Option<Seq<char>> {
    match s {
        Some(t) => Some(t@),
        None => None,
    }
}

/// The text of an optional string.
pub open spec fn optional_string(s: Option<String>) -> Option<Seq<char>> {
    match s {
        Some(t) => Some(t@),
        None => None,
    }
}

/// A copy of an optional text.
pub(crate) fn owned(s: Option<&str>) -> (r: Option<String>)
    ensures
        optional_string(r) == optional_text(s),
{
    match s {
        Some(t) => Some(t.to_owned()),
        None => None,
    }
}

/// A reference to an optional text.
pub(crate) fn borrowed(s: &Option<String>) -> (r: Option<&str>)
    ensures
        optional_text(r) == optional_string(*s),
{
    match s {
        Some(t) => Some(t.as_str()),
        None => None,
    }
}

/// The character of a decimal digit.
pub open spec fn digit(d: int) -> char {
    ('0' as int + d) as char
}

/// The decimal numeral of `n`, without leading zeros.
pub open spec fn decimal(n: int) -> Seq<char>
    decreases n,
{
    if n < 10 {
        seq![digit(n)]
    } else {
        decimal(n / 10).push(digit(n % 10))
    }
}

fn digit_text(d: u16) -> (r: &'static str)
    requires
        d < 10,
    ensures
        r@ == seq![digit(d as int)],
{
    proof {
        reveal_strlit("0");
        reveal_strlit("1");
        reveal_strlit("2");
        reveal_strlit("3");
        reveal_strlit("4");
        reveal_strlit("5");
        reveal_strlit("6");
        reveal_strlit("7");
        reveal_strlit("8");
        reveal_strlit("9");
    }
    match d {
        0 => "0",
        1 => "1",
        2 => "2",
        3 => "3",
        4 => "4",
        5 => "5",
        6 => "6",
        7 => "7",
        8 => "8",
        _ => "9",
    }
}

/// The decimal numeral of `n`.
pub(crate) fn decimal_text(n: u16) -> (r: String)
    ensures
        r@ == decimal(n as int),
    decreases n,
{
    if n < 10 {
        digit_text(n).to_owned()
    } else {
        let mut head = decimal_text(n / 10);
        let last = digit_text(n % 10);
        head.append(last);
        assert(head@ =~= decimal(n as int));
        head
    }
}

/// The text `head` followed by `tail`.
pub(crate) fn joined(head: &str, tail: &str) -> (r: String)
    ensures
        r@ == head@ + tail@,
{
    let mut s = head.to_owned();
    s.append(tail);
    s
}

/// The first byte in which two byte strings differ decides over their order, by its number; where
/// one continues the other, the shorter comes first.
pub proof fn first_difference_decides(a: Seq<u8>, b: Seq<u8>, k: int)
    requires
        0 <= k <= a.len(),
        k < b.len(),
        forall|l: int| 0 <= l < k ==> a[l] == b[l],
        k < a.len() ==> a[k] != b[k],
    ensures
        bytes_precede(a, b) <==> k == a.len() || a[k] < b[k],
        bytes_precede(b, a) <==> k < a.len() && b[k] < a[k],
    decreases k,
{
    if k > 0 {
        assert(a[0] == b[0]);
        first_difference_decides(a.drop_first(), b.drop_first(), k - 1);
    }
}

/// No byte string comes before itself.
pub proof fn nothing_precedes_itself(a: Seq<u8>)
    ensures
        !bytes_precede(a, a),
{
    lemma_bytes_asymmetric(a, a);
}

/// Of two texts of 64 hexadecimal digits, the first digit in which they differ decides over the
/// order, by its character code.
pub proof fn hex_texts_order_by_first_difference(a: Seq<char>, b: Seq<char>, k: int)
    requires
        is_hex64(a),
        is_hex64(b),
        0 <= k < 64,
        forall|l: int| 0 <= l < k ==> a[l] == b[l],
        a[k] != b[k],
    ensures
        text_precedes(a, b) <==> (a[k] as int) < (b[k] as int),
{
    assert(is_ascii_chars(a)) by {
        assert forall|i: int| 0 <= i < a.len() implies '\0' <= #[trigger] a[i] <= '\u{7f}' by {
            assert(is_hex_digit(a[i]));
        }
    }
    assert(is_ascii_chars(b)) by {
        assert forall|i: int| 0 <= i < b.len() implies '\0' <= #[trigger] b[i] <= '\u{7f}' by {
            assert(is_hex_digit(b[i]));
        }
    }
    is_ascii_chars_encode_utf8(a);
    is_ascii_chars_encode_utf8(b);
    let x = encode_utf8(a);
    let y = encode_utf8(b);
    assert forall|l: int| 0 <= l < k implies x[l] == y[l] by {
        assert(a[l] == b[l]);
    }
    assert(x[k] == a[k] as u8 && y[k] == b[k] as u8);
    first_difference_decides(x, y, k);
}

/// A text is of the form of an id exactly if it is 64 characters, each a digit or a letter from `a`
/// to `f` in either case, by their character codes.
pub proof fn hex64_has_64_digits(s: Seq<char>)
    ensures
        is_hex64(s) <==> s.len() == 64 && forall|i: int|
            0 <= i < 64 ==> 48 <= (#[trigger] s[i] as int) <= 57 || 97 <= s[i] as int <= 102 || 65
                <= s[i] as int <= 70,
{
    assert forall|i: int| 0 <= i < s.len() implies is_hex_digit(#[trigger] s[i]) == (48
        <= s[i] as int <= 57 || 97 <= s[i] as int <= 102 || 65 <= s[i] as int <= 70) by {}
}

/// The number that a numeral stands for.
pub open spec fn value_of(numeral: Seq<char>) -> int
    decreases numeral.len(),
{
    if numeral.len() == 0 {
        0
    } else {
        10 * value_of(numeral.drop_last()) + (numeral.last() as int - 48)
    }
}

/// A decimal numeral stands for its number, is made of digits, and has no leading zero, but for
/// the numeral of zero.
pub proof fn decimal_stands_for_its_number(n: int)
    requires
        0 <= n,
    ensures
        value_of(decimal(n)) == n,
        decimal(n).len() > 0,
        forall|i: int| 0 <= i < decimal(n).len() ==> 48 <= #[trigger] decimal(n)[i] as int <= 57,
        n > 0 ==> decimal(n)[0] as int != 48,
        n == 0 ==> decimal(n).len() == 1,
    decreases n,
{
    reveal_with_fuel(value_of, 2);
    if n < 10 {
        assert(decimal(n).drop_last() =~= Seq::empty());
    } else {
        decimal_stands_for_its_number(n / 10);
        assert(decimal(n).drop_last() =~= decimal(n / 10));
        assert(decimal(n)[0] == decimal(n / 10)[0]);
        assert forall|i: int| 0 <= i < decimal(n).len() implies 48 <= #[trigger] decimal(
            n,
        )[i] as int <= 57 by {
            if i < decimal(n).len() - 1 {
                assert(decimal(n)[i] == decimal(n / 10)[i]);
            }
        }
    }
}

/// An optional text is there exactly if the option is, and is the text inside.
pub proof fn optional_texts_are_kept(s: Option<&str>, t: Option<String>)
    ensures
        optional_text(s) is Some <==> s is Some,
        s matches Some(inner) ==> optional_text(s) == Some(inner@),
        optional_string(t) is Some <==> t is Some,
        t matches Some(inner) ==> optional_string(t) == Some(inner@),
{
}

} // verus!
