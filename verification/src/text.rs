//! Text as sequences of characters: decimal numbers, joined lines, searching,
//! ordering, and the digit fields that quantities are typed into.
use vstd::prelude::*;

verus! {

/// The character of one decimal digit.
pub open spec fn digit_char(d: nat) -> char
    recommends
        d < 10,
{
    (48 + d) as char
}

/// The decimal notation of `n`, without leading zeros.
pub open spec fn digits(n: nat) -> Seq<char>
    decreases n,
{
    if n < 10 {
        seq![digit_char(n)]
    } else {
        digits(n / 10).push(digit_char(n % 10))
    }
}

/// The decimal notation of `i`, with a leading minus sign where it is negative.
pub open spec fn signed_digits(i: int) -> Seq<char> {
    if i < 0 {
        "-"@ + digits((-i) as nat)
    } else {
        digits(i as nat)
    }
}

/// What the strings of a list hold.
pub open spec fn texts(list: Seq<String>) -> Seq<Seq<char>> {
    list.map_values(|s: String| s@)
}

/// What an optional string holds.
pub open spec fn opt_text(o: Option<String>) -> Option<Seq<char>> {
    match o {
        Some(s) => Some(s@),
        None => None,
    }
}

/// The parts one after the other with `separator` between each two.
pub open spec fn joined(parts: Seq<Seq<char>>, separator: Seq<char>) -> Seq<char>
    decreases parts.len(),
{
    if parts.len() == 0 {
        Seq::empty()
    } else if parts.len() == 1 {
        parts[0]
    } else {
        joined(parts.drop_last(), separator) + separator + parts.last()
    }
}

/// Whether `needle` stands in `hay` at position `at`.
pub open spec fn occurs_at(hay: Seq<char>, needle: Seq<char>, at: int) -> bool {
    &&& 0 <= at
    &&& at + needle.len() <= hay.len()
    &&& hay.subrange(at, at + needle.len()) == needle
}

/// Whether `needle` stands somewhere in `hay`.
pub open spec fn has_text(hay: Seq<char>, needle: Seq<char>) -> bool {
    exists|at: int| occurs_at(hay, needle, at)
}

/// The strict dictionary order by character code: a proper prefix comes first.
pub open spec fn text_before(a: Seq<char>, b: Seq<char>) -> bool
    decreases a.len(),
{
    if b.len() == 0 {
        false
    } else if a.len() == 0 {
        true
    } else if a[0] != b[0] {
        (a[0] as int) < (b[0] as int)
    } else {
        text_before(a.drop_first(), b.drop_first())
    }
}

/// Whether `c` is one of the ten decimal digits.
pub open spec fn is_digit(c: char) -> bool {
    48 <= c as int <= 57
}

/// The characters of `s` that are decimal digits, in order.
pub open spec fn only_digits(s: Seq<char>) -> Seq<char> {
    s.filter(|c: char| is_digit(c))
}

/// The number that a sequence of decimal digits denotes.
pub open spec fn number_of(s: Seq<char>) -> nat
    decreases s.len(),
{
    if s.len() == 0 {
        0
    } else {
        10 * number_of(s.drop_last()) + (s.last() as int - 48) as nat
    }
}

/// The positive quantity that a digit field holds: nothing where the field is
/// empty, holds zero, or holds more than sixteen bits can.
pub open spec fn quantity_of(s: Seq<char>) -> Option<u16> {
    if s.len() == 0 || number_of(s) == 0 || number_of(s) > 65535 {
        None
    } else {
        Some(number_of(s) as u16)
    }
}

/// Whether every character is an ASCII one.
pub open spec fn is_ascii_text(s: Seq<char>) -> bool {
    forall|i: int| 0 <= i < s.len() ==> (#[trigger] s[i] as int) < 128
}

/// The text with each capital letter of ASCII as the small one.
pub open spec fn ascii_lowered(s: Seq<char>) -> Seq<char> {
    s.map_values(
        |c: char|
            if 65 <= c as int <= 90 {
                (c as int + 32) as char
            } else {
                c
            },
    )
}

/// A part of an ASCII text is one.
pub proof fn part_of_ascii_is_ascii(hay: Seq<char>, needle: Seq<char>)
    requires
        is_ascii_text(hay),
        has_text(hay, needle),
    ensures
        is_ascii_text(needle),
{
    let at = choose|at: int| occurs_at(hay, needle, at);
    assert forall|i: int| 0 <= i < needle.len() implies (#[trigger] needle[i] as int) < 128 by {
        assert(hay.subrange(at, at + needle.len())[i] == hay[at + i]);
    }
}

/// What `str::to_lowercase` makes of a text.
pub uninterp spec fn lowercase(s: Seq<char>) -> Seq<char>;

/// What `str::trim` leaves of a text.
pub uninterp spec fn trimmed(s: Seq<char>) -> Seq<char>;

/// Calls `str::to_lowercase`. Its Unicode case mapping is named, not spelled out
/// but for ASCII: there the capital letters become the small ones and nothing else
/// changes. So lowering an ASCII text once more changes nothing, and none of its
/// ends becomes white space. What lowering any other text once more gives is not
/// stated.
#[verifier::external_body]
pub(crate) fn to_lowercase(s: &str) -> (r: String)
    ensures
        r@ == lowercase(s@),
        is_ascii_text(s@) ==> r@ == ascii_lowered(s@),
        is_ascii_text(s@) ==> lowercase(r@) == r@,
        is_ascii_text(s@) && trimmed(s@) == s@ ==> trimmed(r@) == r@,
{
    s.to_lowercase()
}

/// Calls `str::trim`. Which characters are white space is left to std; the
/// result is a contiguous part of the argument, and nothing is left to trim off
/// it.
#[verifier::external_body]
pub(crate) fn trim(s: &str) -> (r: String)
    ensures
        r@ == trimmed(s@),
        has_text(s@, r@),
        trimmed(r@) == r@,
{
    s.trim().to_owned()
}

/// Whether the two texts hold the same characters.
pub fn same_text(a: &str, b: &str) -> (r: bool)
    ensures
        r == (a@ == b@),
{
    let left: String = a.to_owned();
    let right: String = b.to_owned();
    left == right
}

fn digit_text(d: u64) -> (r: String)
    requires
        d < 10,
    ensures
        r@ == seq![digit_char(d as nat)],
{
    proof {
        reveal_strlit("0");
        reveal_strlit("1");
        reveal_strlit("2");
        reveal_strlit("3");
        reveal_strlit("4");
        reveal_strlit("5");
        reveal_strlit("6");
        reveal_strlit("7");
        reveal_strlit("8");
        reveal_strlit("9");
    }
    if d == 0 {
        "0".to_owned()
    } else if d == 1 {
        "1".to_owned()
    } else if d == 2 {
        "2".to_owned()
    } else if d == 3 {
        "3".to_owned()
    } else if d == 4 {
        "4".to_owned()
    } else if d == 5 {
        "5".to_owned()
    } else if d == 6 {
        "6".to_owned()
    } else if d == 7 {
        "7".to_owned()
    } else if d == 8 {
        "8".to_owned()
    } else {
        "9".to_owned()
    }
}

/// Writes `n` in decimal.
pub fn decimal(n: u64) -> (r: String)
    ensures
        r@ == digits(n as nat),
    decreases n,
{
    if n < 10 {
        digit_text(n)
    } else {
        let mut r = decimal(n / 10);
        let last = digit_text(n % 10);
        r.append(last.as_str());
        proof {
            assert(r@ =~= digits((n / 10) as nat).push(digit_char((n % 10) as nat)));
        }
        r
    }
}

/// Writes `i` in decimal, with a minus sign where it is negative.
pub fn signed_decimal(i: i64) -> (r: String)
    ensures
        r@ == signed_digits(i as int),
{
    if i < 0 {
        let magnitude: u64 = (-(i as i128)) as u64;
        let mut r = "-".to_owned();
        let rest = decimal(magnitude);
        r.append(rest.as_str());
        r
    } else {
        decimal(i as u64)
    }
}

/// `true` or `false`.
pub open spec fn bool_text(b: bool) -> Seq<char> {
    if b {
        "true"@
    } else {
        "false"@
    }
}

/// Writes a truth value.
pub fn bool_word(b: bool) -> (r: String)
    ensures
        r@ == bool_text(b),
{
    if b {
        "true".to_owned()
    } else {
        "false".to_owned()
    }
}

/// Puts two texts together.
pub fn concat2(a: &str, b: &str) -> (r: String)
    ensures
        r@ == a@ + b@,
{
    let mut r = a.to_owned();
    r.append(b);
    r
}

/// Puts three texts together.
pub fn concat3(a: &str, b: &str, c: &str) -> (r: String)
    ensures
        r@ == a@ + b@ + c@,
{
    let mut r = a.to_owned();
    r.append(b);
    r.append(c);
    r
}

/// Puts five texts together.
pub fn concat5(a: &str, b: &str, c: &str, d: &str, e: &str) -> (r: String)
    ensures
        r@ == a@ + b@ + c@ + d@ + e@,
{
    let mut r = a.to_owned();
    r.append(b);
    r.append(c);
    r.append(d);
    r.append(e);
    r
}

/// Joins the parts with `separator`.
pub fn join(parts: &Vec<String>, separator: &str) -> (r: String)
    ensures
        r@ == joined(texts(parts@), separator@),
{
    let mut r = String::new();
    let mut i: usize = 0;
    while i < parts.len()
        invariant
            i <= parts.len(),
            r@ == joined(texts(parts@.take(i as int)), separator@),
        decreases parts.len() - i,
    {
        let ghost before = texts(parts@.take(i as int));
        let ghost after = texts(parts@.take(i + 1));
        proof {
            assert(after.drop_last() =~= before);
            assert(after.last() == parts@[i as int]@);
            assert(after.len() == i + 1);
        }
        if i > 0 {
            r.append(separator);
        }
        r.append(parts[i].as_str());
        proof {
            if i == 0 {
                assert(before.len() == 0);
                assert(r@ =~= parts@[0]@);
                assert(after[0] == parts@[0]@);
            }
        }
        i = i + 1;
    }
    proof {
        assert(parts@.take(i as int) =~= parts@);
    }
    r
}

/// The characters of `s` as a list.
pub fn chars_of(s: &str) -> (r: Vec<char>)
    ensures
        r@ == s@,
{
    let n: usize = s.unicode_len();
    let mut r: Vec<char> = Vec::new();
    let mut i: usize = 0;
    while i < n
        invariant
            i <= n,
            n == s@.len(),
            r@ == s@.take(i as int),
        decreases n - i,
    {
        r.push(s.get_char(i));
        proof {
            assert(s@.take(i + 1) =~= s@.take(i as int).push(s@[i as int]));
        }
        i = i + 1;
    }
    proof {
        assert(s@.take(n as int) =~= s@);
    }
    r
}

/// Whether `needle` occurs in `hay`.
pub fn contains_text(hay: &str, needle: &str) -> (r: bool)
    ensures
        r == has_text(hay@, needle@),
{
    let h = chars_of(hay);
    let n = chars_of(needle);
    if n.len() > h.len() {
        return false;
    }
    let mut at: usize = 0;
    while at <= h.len() - n.len()
        invariant
            h@ == hay@,
            n@ == needle@,
            n.len() <= h.len(),
            at <= h.len() - n.len() + 1,
            forall|k: int| 0 <= k < at ==> !occurs_at(h@, n@, k),
        decreases h.len() - n.len() + 1 - at,
    {
        let mut j: usize = 0;
        let mut same = true;
        while same && j < n.len()
            invariant
                n.len() <= h.len(),
                at <= h.len() - n.len(),
                j <= n.len(),
                same ==> forall|k: int| 0 <= k < j ==> #[trigger] n@[k] == h@[at + k],
                !same ==> exists|k: int| 0 <= k < n.len() && #[trigger] n@[k] != h@[at + k],
            decreases n.len() - j + (if same { 1int } else { 0 }),
        {
            if n[j] != h[at + j] {
                same = false;
                proof {
                    assert(n@[j as int] != h@[at + j]);
                }
            } else {
                j = j + 1;
            }
        }
        if same {
            proof {
                assert(h@.subrange(at as int, at + n.len()) =~= n@);
                assert(occurs_at(h@, n@, at as int));
            }
            return true;
        }
        proof {
            let k = choose|k: int| 0 <= k < n.len() && #[trigger] n@[k] != h@[at + k];
            if occurs_at(h@, n@, at as int) {
                assert(h@.subrange(at as int, at + n.len())[k] == h@[at + k]);
            }
        }
        at = at + 1;
    }
    proof {
        assert forall|k: int| !occurs_at(h@, n@, k) by {
            if 0 <= k && k + n@.len() <= h@.len() {
                assert(k < at);
            }
        }
    }
    false
}

/// Two texts of which neither comes before the other are the same.
pub proof fn text_before_is_total(a: Seq<char>, b: Seq<char>)
    requires
        !text_before(a, b),
        !text_before(b, a),
    ensures
        a == b,
    decreases a.len(),
{
    if a.len() == 0 || b.len() == 0 {
        assert(a =~= b);
    } else {
        text_before_is_total(a.drop_first(), b.drop_first());
        assert(a =~= seq![a[0]] + a.drop_first());
        assert(b =~= seq![b[0]] + b.drop_first());
    }
}

/// No text comes before itself.
pub proof fn text_before_is_irreflexive(a: Seq<char>)
    ensures
        !text_before(a, a),
    decreases a.len(),
{
    if a.len() > 0 {
        text_before_is_irreflexive(a.drop_first());
    }
}

/// The dictionary order is transitive.
pub proof fn text_before_is_transitive(a: Seq<char>, b: Seq<char>, c: Seq<char>)
    requires
        text_before(a, b),
        text_before(b, c),
    ensures
        text_before(a, c),
    decreases a.len(),
{
    if a.len() > 0 && a[0] == b[0] && b[0] == c[0] {
        text_before_is_transitive(a.drop_first(), b.drop_first(), c.drop_first());
    }
}

/// Whether `a` comes before `b` in the dictionary order.
pub fn comes_before(a: &str, b: &str) -> (r: bool)
    ensures
        r == text_before(a@, b@),
{
    let x = chars_of(a);
    let y = chars_of(b);
    let mut i: usize = 0;
    proof {
        assert(a@.skip(0) =~= a@);
        assert(b@.skip(0) =~= b@);
    }
    while i < x.len() && i < y.len()
        invariant
            x@ == a@,
            y@ == b@,
            i <= x.len(),
            i <= y.len(),
            text_before(a@, b@) == text_before(a@.skip(i as int), b@.skip(i as int)),
        decreases x.len() - i,
    {
        let ghost u = a@.skip(i as int);
        let ghost v = b@.skip(i as int);
        proof {
            assert(u[0] == x@[i as int]);
            assert(v[0] == y@[i as int]);
            assert(u.drop_first() =~= a@.skip(i + 1));
            assert(v.drop_first() =~= b@.skip(i + 1));
        }
        if x[i] != y[i] {
            return x[i] < y[i];
        }
        i = i + 1;
    }
    i >= x.len() && i < y.len()
}

/// Keeps the decimal digits of a field.
pub fn keep_digits(s: &str) -> (r: String)
    ensures
        r@ == only_digits(s@),
        forall|i: int| 0 <= i < r@.len() ==> is_digit(#[trigger] r@[i]),
{
    let n: usize = s.unicode_len();
    let mut r = String::new();
    let mut i: usize = 0;
    proof {
        assert(s@.take(0) =~= Seq::<char>::empty());
        reveal(Seq::filter);
    }
    while i < n
        invariant
            i <= n,
            n == s@.len(),
            r@ == only_digits(s@.take(i as int)),
            forall|k: int| 0 <= k < r@.len() ==> is_digit(#[trigger] r@[k]),
        decreases n - i,
    {
        let c = s.get_char(i);
        proof {
            let longer = s@.take(i + 1);
            assert(longer.drop_last() =~= s@.take(i as int));
            assert(longer.last() == c);
            reveal(Seq::filter);
        }
        if c >= '0' && c <= '9' {
            let piece = s.substring_char(i, i + 1);
            r.append(piece);
            proof {
                assert(piece@ =~= seq![c]);
                assert(r@ =~= only_digits(s@.take(i as int)).push(c));
            }
        }
        i = i + 1;
    }
    proof {
        assert(s@.take(n as int) =~= s@);
    }
    r
}

/// Digits are kept as they are.
pub proof fn only_digits_keeps_digits(s: Seq<char>)
    requires
        forall|i: int| 0 <= i < s.len() ==> is_digit(#[trigger] s[i]),
    ensures
        only_digits(s) == s,
    decreases s.len(),
{
    reveal(Seq::filter);
    if s.len() > 0 {
        assert forall|i: int| 0 <= i < s.drop_last().len() implies is_digit(
            #[trigger] s.drop_last()[i],
        ) by {
            assert(s.drop_last()[i] == s[i]);
        }
        only_digits_keeps_digits(s.drop_last());
        assert(is_digit(s[s.len() - 1]));
        assert(s =~= s.drop_last().push(s.last()));
    } else {
        assert(only_digits(s) =~= s);
    }
}

/// Reading the decimal notation of a number gives the number back.
pub proof fn number_of_digits(n: nat)
    ensures
        number_of(digits(n)) == n,
        digits(n).len() > 0,
        forall|i: int| 0 <= i < digits(n).len() ==> is_digit(#[trigger] digits(n)[i]),
    decreases n,
{
    if n < 10 {
        assert(digits(n).drop_last() =~= Seq::<char>::empty());
        assert(digits(n).last() == digit_char(n));
        assert(number_of(digits(n).drop_last()) == 0);
    } else {
        number_of_digits(n / 10);
        assert(digits(n).drop_last() =~= digits(n / 10));
        assert(digits(n).last() == digit_char(n % 10));
    }
}

/// A quantity written into a field is read back from it.
pub proof fn written_quantity_is_read_back(n: u16)
    requires
        n > 0,
    ensures
        quantity_of(digits(n as nat)) == Some(n),
{
    number_of_digits(n as nat);
}

proof fn number_grows(s: Seq<char>, n: int)
    requires
        0 <= n <= s.len(),
        forall|i: int| 0 <= i < s.len() ==> is_digit(#[trigger] s[i]),
    ensures
        number_of(s.take(n)) <= number_of(s),
    decreases s.len() - n,
{
    if n < s.len() {
        number_grows(s, n + 1);
        assert(s.take(n + 1).drop_last() =~= s.take(n));
        assert(is_digit(s[n]));
        assert(s.take(n + 1).last() == s[n]);
    } else {
        assert(s.take(n) =~= s);
    }
}

/// Reads the positive quantity that a digit field holds.
pub fn parse_quantity(s: &str) -> (r: Option<u16>)
    requires
        forall|i: int| 0 <= i < s@.len() ==> is_digit(#[trigger] s@[i]),
    ensures
        r == quantity_of(s@),
{
    let n: usize = s.unicode_len();
    if n == 0 {
        return None;
    }
    let mut total: u32 = 0;
    let mut i: usize = 0;
    proof {
        assert(s@.take(0) =~= Seq::<char>::empty());
    }
    while i < n
        invariant
            i <= n,
            n == s@.len(),
            n > 0,
            forall|k: int| 0 <= k < s@.len() ==> is_digit(#[trigger] s@[k]),
            total == number_of(s@.take(i as int)),
            total <= 65535,
        decreases n - i,
    {
        let c = s.get_char(i);
        proof {
            assert(is_digit(s@[i as int]));
            assert(s@.take(i + 1).drop_last() =~= s@.take(i as int));
            assert(s@.take(i + 1).last() == c);
        }
        let next: u32 = 10 * total + (c as u32 - 48);
        if next > 65535 {
            proof {
                number_grows(s@, i + 1);
            }
            return None;
        }
        total = next;
        i = i + 1;
    }
    proof {
        assert(s@.take(n as int) =~= s@);
    }
    if total == 0 {
        None
    } else {
        Some(total as u16)
    }
}

/// One more part is joined behind the others, with the separator between; a single part
/// stands alone.
pub proof fn parts_are_joined_in_turn(
    parts: Seq<Seq<char>>,
    next: Seq<char>,
    separator: Seq<char>,
)
    ensures
        joined(Seq::empty(), separator).len() == 0,
        joined(seq![next], separator) == next,
        parts.len() > 0 ==> joined(parts.push(next), separator) == joined(parts, separator)
            + separator + next,
{
    assert(parts.push(next).drop_last() =~= parts);
}

/// A number below zero reads as its size behind a minus sign, and any other as it is.
pub proof fn signs_are_written(n: nat)
    ensures
        signed_digits(n as int) == digits(n),
        n > 0 ==> signed_digits(-(n as int)) == "-"@ + digits(n),
{
}

/// A field holds a quantity exactly where its number is positive and fits in 16 bits,
/// and then that number.
pub proof fn fields_hold_positive_quantities(s: Seq<char>, n: u16)
    ensures
        quantity_of(s) == Some(n) <==> s.len() > 0 && number_of(s) == n && n > 0,
        quantity_of(Seq::empty()) is None,
{
}

/// Digits are read from the left: one more behind a number is ten times the number and
/// the digit.
pub proof fn digits_are_read_from_the_left(s: Seq<char>, d: nat)
    requires
        d < 10,
    ensures
        number_of(s.push(digit_char(d))) == 10 * number_of(s) + d,
        is_digit(digit_char(d)),
        number_of(Seq::empty()) == 0,
{
    assert(s.push(digit_char(d)).drop_last() =~= s);
}

/// A text stands in whatever it was put into, and the empty text everywhere.
pub proof fn parts_are_found(before: Seq<char>, needle: Seq<char>, behind: Seq<char>)
    ensures
        has_text(before + needle + behind, needle),
        has_text(before, Seq::empty()),
        has_text(needle, needle),
        needle.len() > before.len() ==> !has_text(before, needle),
{
    let hay = before + needle + behind;
    let at = before.len() as int;
    assert(hay.subrange(at, at + needle.len()) =~= needle);
    assert(occurs_at(hay, needle, at));
    assert(before.subrange(0, 0) =~= Seq::<char>::empty());
    assert(occurs_at(before, Seq::empty(), 0));
    assert(needle.subrange(0, needle.len() as int) =~= needle);
    assert(occurs_at(needle, needle, 0));
}

/// A found text has its place: the hay is what stands before it, the text, and what
/// stands behind it.
pub proof fn found_parts_have_their_place(hay: Seq<char>, needle: Seq<char>)
    requires
        has_text(hay, needle),
    ensures
        exists|before: Seq<char>, behind: Seq<char>|
            hay == #[trigger] ((before + needle) + behind),
{
    let at = choose|at: int| occurs_at(hay, needle, at);
    let before = hay.take(at);
    let behind = hay.skip(at + needle.len());
    assert(hay =~= before + hay.subrange(at, at + needle.len()) + behind);
    assert(hay == (before + needle) + behind);
}

} // verus!
