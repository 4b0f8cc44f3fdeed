//! Strings as sequences of characters: searching, trimming, joining, and decimal numbers.
use vstd::prelude::*;
use vstd::string::StrSliceExecFns;
use vstd::string::StringExecFns;

verus! {

/// The number of characters of `s` before the first `c`; the length of `s` where `c` is absent.
pub open spec fn find(s: Seq<char>, c: char) -> int
    decreases s.len(),
{
    if s.len() == 0 || s[0] == c {
        0
    } else {
        1 + find(s.skip(1), c)
    }
}

/// `s` without the characters `c` at its end.
pub open spec fn trimmed_end(s: Seq<char>, c: char) -> Seq<char>
    decreases s.len(),
{
    if s.len() > 0 && s.last() == c {
        trimmed_end(s.drop_last(), c)
    } else {
        s
    }
}

/// The views of a vector's strings.
pub open spec fn views(list: Seq<String>) -> Seq<Seq<char>> {
    list.map_values(|s: String| s@)
}

/// The parts in order, with `separator` between neighbours.
pub open spec fn joined(parts: Seq<Seq<char>>, separator: Seq<char>) -> Seq<char>
    decreases parts.len(),
{
    if parts.len() == 0 {
        Seq::empty()
    } else if parts.len() == 1 {
        parts[0]
    } else {
        joined(parts.drop_last(), separator) + separator + parts.last()
    }
}

/// The character of a decimal digit.
pub open spec fn digit(n: nat) -> char {
    (('0' as int) + (n % 10)) as char
}

/// A number in decimal, without leading zeros.
pub open spec fn decimal(n: nat) -> Seq<char>
    decreases n,
{
    if n < 10 {
        seq![digit(n)]
    } else {
        decimal(n / 10).push(digit(n))
    }
}

/// A number below a hundred in exactly two digits.
pub open spec fn two_digits(n: nat) -> Seq<char> {
    seq![digit(n / 10), digit(n)]
}

/// `find` stops at the first occurrence, or at the end.
pub proof fn find_is_first(s: Seq<char>, c: char)
    ensures
        0 <= find(s, c) <= s.len(),
        forall|i: int| 0 <= i < find(s, c) ==> s[i] != c,
        find(s, c) < s.len() ==> s[find(s, c)] == c,
        find(s, c) < s.len() <==> s.contains(c),
    decreases s.len(),
{
    if s.len() > 0 && s[0] != c {
        let tail = s.skip(1);
        find_is_first(tail, c);
        assert forall|i: int| 0 <= i < find(s, c) implies s[i] != c by {
            if i > 0 {
                assert(tail[i - 1] == s[i]);
            }
        }
        if s.contains(c) {
            let i = choose|i: int| 0 <= i < s.len() && s[i] == c;
            assert(tail[i - 1] == c);
        }
        if tail.contains(c) {
            let i = choose|i: int| 0 <= i < tail.len() && tail[i] == c;
            assert(s[i + 1] == c);
        }
    }
}

/// A position with no earlier occurrence, which is an occurrence or the end, is what `find` gives.
pub proof fn first_is_find(s: Seq<char>, c: char, k: int)
    requires
        0 <= k <= s.len(),
        forall|i: int| 0 <= i < k ==> s[i] != c,
        k < s.len() ==> s[k] == c,
    ensures
        find(s, c) == k,
{
    find_is_first(s, c);
    if find(s, c) < k {
        assert(s[find(s, c)] != c);
    }
}

/// The characters of `s`.
pub fn chars_of(s: &str) -> (chars: Vec<char>)
    ensures
        chars@ == s@,
{
    let mut chars: Vec<char> = Vec::new();
    for c in it: s.chars()
        invariant
            chars@ == s@.take(it.index()),
            it.seq() == s@,
    {
        chars.push(c);
    }
    assert(s@.take(s@.len() as int) == s@);
    chars
}

/// The position of the first `c` at or after `from`; the length where there is none.
pub fn find_from(chars: &Vec<char>, from: usize, c: char) -> (at: usize)
    requires
        from <= chars@.len(),
    ensures
        at == from + find(chars@.skip(from as int), c),
        from <= at <= chars@.len(),
{
    let mut at: usize = from;
    let ghost rest = chars@.skip(from as int);
    while at < chars.len() && chars[at] != c
        invariant
            from <= at <= chars@.len(),
            rest == chars@.skip(from as int),
            forall|i: int| 0 <= i < at - from ==> rest[i] != c,
        decreases chars@.len() - at,
    {
        at = at + 1;
    }
    proof {
        first_is_find(rest, c, at - from);
    }
    at
}

/// Whether two strings hold the same characters.
pub fn same_text(a: &str, b: &str) -> (same: bool)
    ensures
        same == (a@ == b@),
{
    a.to_owned() == b.to_owned()
}

/// The digit with this value, as a string.
fn digit_text(n: u64) -> (text: &'static str)
    requires
        n < 10,
    ensures
        text@ == seq![digit(n as nat)],
{
    proof {
        reveal_strlit("0");
        reveal_strlit("1");
        reveal_strlit("2");
        reveal_strlit("3");
        reveal_strlit("4");
        reveal_strlit("5");
        reveal_strlit("6");
        reveal_strlit("7");
        reveal_strlit("8");
        reveal_strlit("9");
    }
    if n == 0 {
        "0"
    } else if n == 1 {
        "1"
    } else if n == 2 {
        "2"
    } else if n == 3 {
        "3"
    } else if n == 4 {
        "4"
    } else if n == 5 {
        "5"
    } else if n == 6 {
        "6"
    } else if n == 7 {
        "7"
    } else if n == 8 {
        "8"
    } else {
        "9"
    }
}

/// Appends a number in decimal.
pub fn append_decimal(out: &mut String, n: u64)
    ensures
        final(out)@ == old(out)@ + decimal(n as nat),
    decreases n,
{
    if n >= 10 {
        append_decimal(out, n / 10);
    }
    out.append(digit_text(n % 10));
}

/// Appends a number below a hundred in two digits.
pub fn append_two_digits(out: &mut String, n: u64)
    requires
        n < 100,
    ensures
        final(out)@ == old(out)@ + two_digits(n as nat),
{
    out.append(digit_text(n / 10));
    out.append(digit_text(n % 10));
}

/// The strings of a list, with `separator` between neighbours.
pub fn join(list: &Vec<String>, separator: &str) -> (text: String)
    ensures
        text@ == joined(views(list@), separator@),
{
    let mut text = String::new();
    let mut i: usize = 0;
    while i < list.len()
        invariant
            i <= list@.len(),
            text@ == joined(views(list@.take(i as int)), separator@),
        decreases list@.len() - i,
    {
        proof {
            let parts = views(list@.take(i + 1));
            assert(parts.drop_last() == views(list@.take(i as int)));
            assert(parts.last() == list@[i as int]@);
        }
        if i > 0 {
            text.append(separator);
        }
        text.append(list[i].as_str());
        i = i + 1;
    }
    assert(list@.take(i as int) == list@);
    text
}

/// A string without the characters `c` at its end.
pub fn trim_end(s: &str, c: char) -> (text: String)
    ensures
        text@ == trimmed_end(s@, c),
{
    let chars = chars_of(s);
    let mut end: usize = chars.len();
    assert(s@.take(end as int) == s@);
    while end > 0 && chars[end - 1] == c
        invariant
            chars@ == s@,
            end <= s@.len(),
            trimmed_end(s@, c) == trimmed_end(s@.take(end as int), c),
        decreases end,
    {
        assert(s@.take(end as int).drop_last() == s@.take(end - 1));
        end = end - 1;
    }
    s.substring_char(0, end).to_owned()
}

/// Whether a string begins with a character.
pub fn begins_with(s: &str, c: char) -> (begins: bool)
    ensures
        begins == (s@.len() > 0 && s@[0] == c),
{
    !s.is_empty() && s.get_char(0) == c
}

/// A decimal number has a digit at least, and digits alone.
pub proof fn decimal_is_digits(n: nat)
    ensures
        decimal(n).len() >= 1,
        n >= 10 ==> decimal(n).len() >= 2,
        forall|i: int| 0 <= i < decimal(n).len() ==> '0' <= #[trigger] decimal(n)[i] <= '9',
    decreases n,
{
    if n >= 10 {
        decimal_is_digits(n / 10);
    }
}

/// Two numbers that read the same in decimal are the same.
pub proof fn decimal_is_injective(a: nat, b: nat)
    ensures
        decimal(a) == decimal(b) <==> a == b,
    decreases a,
{
    decimal_is_digits(a);
    decimal_is_digits(b);
    if decimal(a) == decimal(b) {
        assert(decimal(a).last() == digit(a));
        assert(decimal(b).last() == digit(b));
        if a >= 10 {
            assert(decimal(a).drop_last() == decimal(a / 10));
            assert(decimal(b).drop_last() == decimal(b / 10));
            decimal_is_injective(a / 10, b / 10);
        }
    }
}

/// A trimmed string ends in another character, is the beginning of the string, and all that was
/// cut off is the character; to trim it again changes nothing.
pub proof fn trimming_cuts_only_the_end(s: Seq<char>, c: char)
    ensures
        trimmed_end(s, c).len() <= s.len(),
        trimmed_end(s, c) == s.take(trimmed_end(s, c).len() as int),
        trimmed_end(s, c).len() > 0 ==> trimmed_end(s, c).last() != c,
        forall|i: int| trimmed_end(s, c).len() <= i < s.len() ==> s[i] == c,
        trimmed_end(trimmed_end(s, c), c) == trimmed_end(s, c),
    decreases s.len(),
{
    if s.len() > 0 && s.last() == c {
        trimming_cuts_only_the_end(s.drop_last(), c);
    }
    let trimmed = trimmed_end(s, c);
    assert(trimmed == s.take(trimmed.len() as int));
    assert forall|i: int| trimmed.len() <= i < s.len() implies s[i] == c by {
        if i < s.len() - 1 {
            assert(s.drop_last()[i] == s[i]);
        }
    }
}

/// The views of a list are those of its strings, each at its place.
pub proof fn views_stand_in_order(list: Seq<String>)
    ensures
        views(list).len() == list.len(),
        forall|i: int| 0 <= i < list.len() ==> #[trigger] views(list)[i] == list[i]@,
{
}

/// Nothing joined is empty, and one part is joined to itself.
pub proof fn few_parts_join_without_separator(part: Seq<char>, separator: Seq<char>)
    ensures
        joined(seq![], separator) == Seq::<char>::empty(),
        joined(seq![part], separator) == part,
{
}

/// Two lists in a row join to their texts in a row, with the separator once between them.
pub proof fn lists_join_one_by_one(
    first: Seq<Seq<char>>,
    second: Seq<Seq<char>>,
    separator: Seq<char>,
)
    requires
        first.len() > 0,
        second.len() > 0,
    ensures
        joined(first + second, separator) == joined(first, separator) + separator + joined(
            second,
            separator,
        ),
    decreases second.len(),
{
    assert((first + second).drop_last() == first + second.drop_last());
    if second.len() == 1 {
        assert(first + second.drop_last() == first);
    } else {
        lists_join_one_by_one(first, second.drop_last(), separator);
    }
    assert(joined(first + second, separator) =~= joined(first, separator) + separator + joined(
        second,
        separator,
    ));
}

/// A digit written behind a number makes ten times the number and the digit.
pub proof fn decimal_grows_by_digits(n: nat, last: nat)
    requires
        last < 10,
    ensures
        decimal(last) == seq![(('0' as int) + last) as char],
        n > 0 ==> decimal(10 * n + last) == decimal(n).push((('0' as int) + last) as char),
{
    assert((10 * n + last) / 10 == n && (10 * n + last) % 10 == last);
}

/// Two digits are the tens and the units, also where there are no tens.
pub proof fn two_digits_are_tens_and_units(tens: nat, units: nat)
    requires
        tens < 10,
        units < 10,
    ensures
        two_digits(10 * tens + units) == seq![
            (('0' as int) + tens) as char,
            (('0' as int) + units) as char,
        ],
{
    assert((10 * tens + units) / 10 == tens && (10 * tens + units) % 10 == units);
}

} // verus!
