//! Text building blocks: decimal numbers and substring search.

use vstd::prelude::*;

verus! {

/// The bytes of a text, in UTF-8.
pub open spec fn utf8(s: Seq<char>) -> Seq<u8> {
    vstd::utf8::encode_utf8(s)
}

/// The decimal digit `d`, for `d < 10`.
pub open spec fn digit(d: nat) -> char {
    (48 + d) as char
}

/// `n` written in decimal, without leading zeros.
pub open spec fn decimal(n: nat) -> Seq<char>
    decreases n,
{
    if n < 10 {
        seq![digit(n)]
    } else {
        decimal(n / 10).push(digit(n % 10))
    }
}

/// Whether `c` is one of `0` to `9`.
pub open spec fn is_digit(c: char) -> bool {
    48 <= c as nat <= 57
}

/// The number that a run of decimal digits denotes.
pub open spec fn digits_value(s: Seq<char>) -> nat
    decreases s.len(),
{
    if s.len() == 0 {
        0
    } else {
        digits_value(s.drop_last()) * 10 + (s.last() as nat - 48) as nat
    }
}

/// The digits of a number as `u32` accepts it: an optional `+` is dropped.
pub open spec fn unsigned_digits(s: Seq<char>) -> Seq<char> {
    if s.len() > 0 && s[0] == '+' {
        s.skip(1)
    } else {
        s
    }
}

/// The `u32` that a text denotes: an optional `+` and then decimal digits
/// only, at least one of them, with a value that fits.
pub open spec fn number_in(s: Seq<char>) -> Option<u32> {
    let d = unsigned_digits(s);
    if d.len() > 0 && (forall|i: int| 0 <= i < d.len() ==> is_digit(#[trigger] d[i]))
        && digits_value(d) <= u32::MAX {
        Some(digits_value(d) as u32)
    } else {
        None
    }
}

/// Whether `needle` occurs in `hay` as consecutive characters.
pub open spec fn occurs(needle: Seq<char>, hay: Seq<char>) -> bool {
    exists|i: int| occurs_at(needle, hay, i)
}

/// Whether `needle` occurs in `hay` at position `i`.
pub open spec fn occurs_at(needle: Seq<char>, hay: Seq<char>, i: int) -> bool {
    0 <= i <= hay.len() - needle.len() && hay.subrange(i, i + needle.len()) == needle
}

/// One decimal digit as text.
fn digit_text(d: u32) -> (r: &'static str)
    requires
        d < 10,
    ensures
        r@ == seq![digit(d as nat)],
{
    proof {
        reveal_strlit("0");
        reveal_strlit("1");
        reveal_strlit("2");
        reveal_strlit("3");
        reveal_strlit("4");
        reveal_strlit("5");
        reveal_strlit("6");
        reveal_strlit("7");
        reveal_strlit("8");
        reveal_strlit("9");
    }
    match d {
        0 => "0",
        1 => "1",
        2 => "2",
        3 => "3",
        4 => "4",
        5 => "5",
        6 => "6",
        7 => "7",
        8 => "8",
        _ => "9",
    }
}

/// Writes `n` in decimal.
pub fn decimal_text(n: u32) -> (r: String)
    ensures
        r@ == decimal(n as nat),
    decreases n,
{
    if n < 10 {
        digit_text(n).to_owned()
    } else {
        let mut text = decimal_text(n / 10);
        text.append(digit_text(n % 10));
        assert(text@ == decimal(n as nat / 10).push(digit(n as nat % 10)));
        text
    }
}

/// Whether two texts are the same.
pub fn same_text(a: &str, b: &str) -> (r: bool)
    ensures
        r == (a@ == b@),
{
    a.to_owned() == b.to_owned()
}

/// Whether two runs of bytes are the same.
pub fn same_bytes(a: &[u8], b: &[u8]) -> (r: bool)
    ensures
        r == (a@ == b@),
{
    if a.len() != b.len() {
        return false;
    }
    let mut i: usize = 0;
    while i < a.len()
        invariant
            a@.len() == b@.len(),
            i <= a.len(),
            forall|k: int| 0 <= k < i ==> a@[k] == b@[k],
        decreases a.len() - i,
    {
        if a[i] != b[i] {
            return false;
        }
        i = i + 1;
    }
    assert(a@ == b@);
    true
}

/// The characters of a text.
fn chars_of(s: &str) -> (r: Vec<char>)
    ensures
        r@ == s@,
{
    let mut r: Vec<char> = Vec::new();
    for c in it: s.chars()
        invariant
            it.seq() == s@,
            r@ == s@.take(it.index()),
    {
        r.push(c);
        assert(r@ == s@.take(it.index() + 1));
    }
    assert(s@.take(s@.len() as int) == s@);
    r
}

/// Whether `needle` occurs in `hay`.
pub fn contains(hay: &str, needle: &str) -> (r: bool)
    ensures
        r == occurs(needle@, hay@),
{
    let h = chars_of(hay);
    let n = chars_of(needle);
    if n.len() > h.len() {
        return false;
    }
    let last: usize = h.len() - n.len();
    let mut i: usize = 0;
    while i <= last
        invariant
            h@ == hay@,
            n@ == needle@,
            last == h.len() - n.len(),
            i <= last + 1,
            h.len() <= usize::MAX,
            forall|k: int| 0 <= k < i ==> !occurs_at(needle@, hay@, k),
        decreases last + 1 - i,
    {
        let mut j: usize = 0;
        while j < n.len() && h[i + j] == n[j]
            invariant
                h@ == hay@,
                n@ == needle@,
                i + n.len() <= h.len(),
                j <= n.len(),
                forall|k: int| 0 <= k < j ==> h[i + k] == n[k],
            decreases n.len() - j,
        {
            j = j + 1;
        }
        if j == n.len() {
            assert(hay@.subrange(i as int, i + needle@.len()) == needle@);
            assert(occurs_at(needle@, hay@, i as int));
            return true;
        }
        assert(!occurs_at(needle@, hay@, i as int)) by {
            assert(hay@.subrange(i as int, i + needle@.len())[j as int] == h[i + j]);
        }
        if i == last {
            return false;
        }
        i = i + 1;
    }
    false
}

/// Writing a number in decimal and reading the digits gives the number back,
/// and the digits are only digits.
pub proof fn decimal_reads_back(n: nat)
    ensures
        decimal(n).len() > 0,
        forall|i: int| 0 <= i < decimal(n).len() ==> is_digit(#[trigger] decimal(n)[i]),
        digits_value(decimal(n)) == n,
    decreases n,
{
    if n < 10 {
        assert(decimal(n).drop_last() == Seq::<char>::empty());
        assert(digits_value(decimal(n).drop_last()) == 0);
    } else {
        decimal_reads_back(n / 10);
        assert(decimal(n).drop_last() == decimal(n / 10));
    }
}

/// A `u32` written in decimal reads back as itself.
pub proof fn number_reads_back(n: u32)
    ensures
        number_in(decimal(n as nat)) == Some(n),
{
    decimal_reads_back(n as nat);
    assert(is_digit(decimal(n as nat)[0]));
}

/// Whether a text consists of these parts, one after the other, and of nothing
/// else.
pub open spec fn spells(text: Seq<char>, parts: Seq<Seq<char>>) -> bool
    decreases parts.len(),
{
    if parts.len() == 0 {
        text.len() == 0
    } else {
        &&& parts.last().is_suffix_of(text)
        &&& spells(text.take(text.len() - parts.last().len()), parts.drop_last())
    }
}

/// A text that spells some parts spells one part more with that part behind it.
pub proof fn spells_one_more(text: Seq<char>, parts: Seq<Seq<char>>, part: Seq<char>)
    requires
        spells(text, parts),
    ensures
        spells(text + part, parts.push(part)),
{
    let all = text + part;
    let n = text.len() as int;
    assert(parts.push(part).drop_last() =~= parts);
    assert(all.subrange(n, all.len() as int) =~= part);
    assert(all.take(all.len() - part.len()) =~= text);
}

/// There is only one text that spells given parts.
pub proof fn spelling_is_unique(x: Seq<char>, y: Seq<char>, parts: Seq<Seq<char>>)
    requires
        spells(x, parts),
        spells(y, parts),
    ensures
        x == y,
    decreases parts.len(),
{
    if parts.len() == 0 {
        assert(x =~= y);
    } else {
        let part = parts.last();
        let p = x.take(x.len() - part.len());
        let q = y.take(y.len() - part.len());
        spelling_is_unique(p, q, parts.drop_last());
        assert(x =~= p + part);
        assert(y =~= q + part);
    }
}

/// Two parts one after the other spell those parts.
pub(crate) proof fn spell_2(a: Seq<char>, b: Seq<char>)
    ensures
        spells(a + b, seq![a, b]),
{
    assert(spells(Seq::empty(), Seq::empty()));
    spells_one_more(Seq::empty(), Seq::empty(), a);
    assert(Seq::empty() + a =~= a);
    spells_one_more(a, Seq::empty().push(a), b);
    assert(Seq::empty().push(a).push(b) =~= seq![a, b]);
}

/// The same for three parts.
pub(crate) proof fn spell_3(a: Seq<char>, b: Seq<char>, c: Seq<char>)
    ensures
        spells(a + b + c, seq![a, b, c]),
{
    spell_2(a, b);
    spells_one_more(a + b, seq![a, b], c);
    assert(seq![a, b].push(c) =~= seq![a, b, c]);
}

/// The same for four parts.
pub(crate) proof fn spell_4(a: Seq<char>, b: Seq<char>, c: Seq<char>, d: Seq<char>)
    ensures
        spells(a + b + c + d, seq![a, b, c, d]),
{
    spell_3(a, b, c);
    spells_one_more(a + b + c, seq![a, b, c], d);
    assert(seq![a, b, c].push(d) =~= seq![a, b, c, d]);
}

/// The same for five parts.
pub(crate) proof fn spell_5(
    a: Seq<char>,
    b: Seq<char>,
    c: Seq<char>,
    d: Seq<char>,
    e: Seq<char>,
)
    ensures
        spells(a + b + c + d + e, seq![a, b, c, d, e]),
{
    spell_4(a, b, c, d);
    spells_one_more(a + b + c + d, seq![a, b, c, d], e);
    assert(seq![a, b, c, d].push(e) =~= seq![a, b, c, d, e]);
}

/// The same for six parts.
pub(crate) proof fn spell_6(
    a: Seq<char>,
    b: Seq<char>,
    c: Seq<char>,
    d: Seq<char>,
    e: Seq<char>,
    f: Seq<char>,
)
    ensures
        spells(a + b + c + d + e + f, seq![a, b, c, d, e, f]),
{
    spell_5(a, b, c, d, e);
    spells_one_more(a + b + c + d + e, seq![a, b, c, d, e], f);
    assert(seq![a, b, c, d, e].push(f) =~= seq![a, b, c, d, e, f]);
}

/// The same for seven parts.
pub(crate) proof fn spell_7(
    a: Seq<char>,
    b: Seq<char>,
    c: Seq<char>,
    d: Seq<char>,
    e: Seq<char>,
    f: Seq<char>,
    g: Seq<char>,
)
    ensures
        spells(a + b + c + d + e + f + g, seq![a, b, c, d, e, f, g]),
{
    spell_6(a, b, c, d, e, f);
    spells_one_more(a + b + c + d + e + f, seq![a, b, c, d, e, f], g);
    assert(seq![a, b, c, d, e, f].push(g) =~= seq![a, b, c, d, e, f, g]);
}

/// The same for eight parts.
pub(crate) proof fn spell_8(
    a: Seq<char>,
    b: Seq<char>,
    c: Seq<char>,
    d: Seq<char>,
    e: Seq<char>,
    f: Seq<char>,
    g: Seq<char>,
    h: Seq<char>,
)
    ensures
        spells(a + b + c + d + e + f + g + h, seq![a, b, c, d, e, f, g, h]),
{
    spell_7(a, b, c, d, e, f, g);
    spells_one_more(a + b + c + d + e + f + g, seq![a, b, c, d, e, f, g], h);
    assert(seq![a, b, c, d, e, f, g].push(h) =~= seq![a, b, c, d, e, f, g, h]);
}

/// The same for nine parts.
pub(crate) proof fn spell_9(
    a: Seq<char>,
    b: Seq<char>,
    c: Seq<char>,
    d: Seq<char>,
    e: Seq<char>,
    f: Seq<char>,
    g: Seq<char>,
    h: Seq<char>,
    i: Seq<char>,
)
    ensures
        spells(a + b + c + d + e + f + g + h + i, seq![a, b, c, d, e, f, g, h, i]),
{
    spell_8(a, b, c, d, e, f, g, h);
    spells_one_more(a + b + c + d + e + f + g + h, seq![a, b, c, d, e, f, g, h], i);
    assert(seq![a, b, c, d, e, f, g, h].push(i) =~= seq![a, b, c, d, e, f, g, h, i]);
}

/// The same for ten parts.
pub(crate) proof fn spell_10(
    a: Seq<char>,
    b: Seq<char>,
    c: Seq<char>,
    d: Seq<char>,
    e: Seq<char>,
    f: Seq<char>,
    g: Seq<char>,
    h: Seq<char>,
    i: Seq<char>,
    j: Seq<char>,
)
    ensures
        spells(a + b + c + d + e + f + g + h + i + j, seq![a, b, c, d, e, f, g, h, i, j]),
{
    spell_9(a, b, c, d, e, f, g, h, i);
    spells_one_more(a + b + c + d + e + f + g + h + i, seq![a, b, c, d, e, f, g, h, i], j);
    assert(seq![a, b, c, d, e, f, g, h, i].push(j) =~= seq![a, b, c, d, e, f, g, h, i, j]);
}

/// The last digit of a number is what is left when it is divided by ten, and
/// the digits before it are those of the tenth part. A number below ten has
/// one digit, and a longer number does not begin with a zero.
pub proof fn decimal_digits(n: nat)
    ensures
        decimal(n).len() > 0,
        decimal(n).last() as nat == 48 + n % 10,
        n < 10 <==> decimal(n).len() == 1,
        n >= 10 ==> decimal(n).drop_last() == decimal(n / 10),
        n > 0 ==> decimal(n)[0] != '0',
    decreases n,
{
    if n >= 10 {
        decimal_digits(n / 10);
        assert(decimal(n).drop_last() =~= decimal(n / 10));
    }
}

/// Different numbers are written differently.
pub proof fn decimals_differ(m: nat, n: nat)
    requires
        m != n,
    ensures
        decimal(m) != decimal(n),
{
    decimal_reads_back(m);
    decimal_reads_back(n);
}

/// Reading digits from left to right, each further digit counts as much as
/// its character is above `0`, and what came before ten times as much.
pub proof fn digits_count(digits: Seq<char>, c: char)
    requires
        '0' <= c <= '9',
    ensures
        digits_value(Seq::empty()) == 0,
        digits_value(digits.push(c)) == 10 * digits_value(digits) + (c as nat - '0' as nat),
{
    assert(digits.push(c).drop_last() =~= digits);
}

/// Whether `c` is between the characters `0` and `9`.
pub open spec fn is_plain_digit(c: char) -> bool {
    '0' <= c && c <= '9'
}

/// The characters `0` to `9` are the digits.
proof fn digits_are_plain(c: char)
    ensures
        is_digit(c) == is_plain_digit(c),
{
}

/// A text is a number exactly if it holds, after at most one `+`, only the
/// characters `0` to `9`, at least one of them, and does not say too much. A
/// `+` in front changes nothing.
pub proof fn numbers_in_texts(s: Seq<char>)
    ensures
        number_in(Seq::empty()) is None,
        number_in(seq!['+']) is None,
        (exists|i: int| 0 < i < s.len() && !is_plain_digit(#[trigger] s[i])) ==> number_in(
            s,
        ) is None,
        s.len() > 0 && s[0] != '+' && !is_plain_digit(s[0]) ==> number_in(s) is None,
        s.len() > 0 && s[0] != '+' ==> number_in(seq!['+'] + s) == number_in(s),
        (s.len() > 0 && (forall|i: int| 0 <= i < s.len() ==> is_plain_digit(#[trigger] s[i]))
            && digits_value(s) <= u32::MAX) ==> number_in(s) == Some(digits_value(s) as u32),
        (s.len() > 0 && s[0] != '+' && digits_value(s) > u32::MAX) ==> number_in(s) is None,
{
    assert(seq!['+'].skip(1).len() == 0);
    if s.len() > 0 {
        assert((seq!['+'] + s).skip(1) =~= s);
        assert((seq!['+'] + s)[0] == '+');
        if exists|i: int| 0 < i < s.len() && !is_plain_digit(#[trigger] s[i]) {
            let i = choose|i: int| 0 < i < s.len() && !is_plain_digit(#[trigger] s[i]);
            digits_are_plain(s[i]);
            if s[0] == '+' {
                assert(s.skip(1)[i - 1] == s[i]);
                assert(!is_digit(s.skip(1)[i - 1]));
            } else {
                assert(!is_digit(s[i]));
            }
        }
        if s[0] != '+' && !is_plain_digit(s[0]) {
            digits_are_plain(s[0]);
            assert(!is_digit(s[0]));
        }
        if forall|i: int| 0 <= i < s.len() ==> is_plain_digit(#[trigger] s[i]) {
            assert(is_plain_digit(s[0]));
            assert forall|i: int| 0 <= i < s.len() implies is_digit(#[trigger] s[i]) by {
                digits_are_plain(s[i]);
            }
        }
    }
}

/// A text occurs in another exactly if the other is made of something, that
/// text, and something more.
pub proof fn occurring_is_being_inside(needle: Seq<char>, hay: Seq<char>)
    ensures
        occurs(needle, hay) <==> exists|before: Seq<char>, after: Seq<char>|
            hay == #[trigger] (before + needle + after),
{
    if occurs(needle, hay) {
        let i = choose|i: int| occurs_at(needle, hay, i);
        let before = hay.take(i);
        let after = hay.skip(i + needle.len());
        assert(hay.subrange(i, i + needle.len()) =~= needle);
        assert(hay =~= before + needle + after) by {
            assert forall|k: int| 0 <= k < hay.len() implies hay[k] == (before + needle
                + after)[k] by {
                if i <= k < i + needle.len() {
                    assert(hay.subrange(i, i + needle.len())[k - i] == hay[k]);
                }
            }
        }
    }
    if exists|before: Seq<char>, after: Seq<char>| hay == #[trigger] (before + needle + after) {
        let (before, after) = choose|before: Seq<char>, after: Seq<char>|
            hay == #[trigger] (before + needle + after);
        assert(hay.subrange(before.len() as int, (before.len() + needle.len()) as int) =~= needle);
        assert(occurs_at(needle, hay, before.len() as int));
    }
}

/// The bytes of a text tell the text: decoding them gives it back, so different
/// texts have different bytes.
pub proof fn utf8_reads_back(s: Seq<char>)
    ensures
        vstd::utf8::decode_utf8(utf8(s)) == s,
        utf8(s) == vstd::utf8::encode_utf8(s),
{
    vstd::utf8::encode_utf8_decode_utf8(s);
}

} // verus!
