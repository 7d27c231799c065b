//! Character-level helpers shared by the formatting code.
use vstd::prelude::*;
use vstd::string::*;

verus! {

/// `str::eq` of the standard library, which `==` on two string slices
/// calls: the two are equal exactly when they hold the same characters.
pub assume_specification[ <str as PartialEq>::eq ](a: &str, b: &str) -> (r: bool)
    ensures
        r == (a@ == b@),
;

/// The character that stands for the decimal digit `d`.
pub open spec fn digit_char(d: nat) -> char {
    if d == 0 {
        '0'
    } else if d == 1 {
        '1'
    } else if d == 2 {
        '2'
    } else if d == 3 {
        '3'
    } else if d == 4 {
        '4'
    } else if d == 5 {
        '5'
    } else if d == 6 {
        '6'
    } else if d == 7 {
        '7'
    } else if d == 8 {
        '8'
    } else {
        '9'
    }
}

/// The decimal numeral of `n`, without sign or leading zeros.
pub open spec fn decimal(n: nat) -> Seq<char>
    decreases n,
{
    if n < 10 {
        seq![digit_char(n)]
    } else {
        decimal(n / 10).push(digit_char(n % 10))
    }
}

/// One decimal digit as a string slice.
pub fn digit_str(d: u64) -> (r: &'static str)
    ensures
        r@ == seq![digit_char(d as nat)],
{
    proof {
        reveal_strlit("0");
        reveal_strlit("1");
        reveal_strlit("2");
        reveal_strlit("3");
        reveal_strlit("4");
        reveal_strlit("5");
        reveal_strlit("6");
        reveal_strlit("7");
        reveal_strlit("8");
        reveal_strlit("9");
    }
    let r = if d == 0 {
        "0"
    } else if d == 1 {
        "1"
    } else if d == 2 {
        "2"
    } else if d == 3 {
        "3"
    } else if d == 4 {
        "4"
    } else if d == 5 {
        "5"
    } else if d == 6 {
        "6"
    } else if d == 7 {
        "7"
    } else if d == 8 {
        "8"
    } else {
        "9"
    };
    r
}

/// Writes `n` in decimal.
pub fn decimal_string(n: u64) -> (r: String)
    ensures
        r@ == decimal(n as nat),
    decreases n,
{
    if n < 10 {
        digit_str(n).to_owned()
    } else {
        let mut r = decimal_string(n / 10);
        r.append(digit_str(n % 10));
        r
    }
}

/// True when a two-character marker, `%` followed by `kind`, starts at `i`.
pub open spec fn marker_at(s: Seq<char>, kind: char, i: int) -> bool {
    0 <= i && i + 1 < s.len() && s[i] == '%' && s[i + 1] == kind
}

/// Position of the first marker at or after `from`; `s.len()` when there is none.
pub open spec fn marker_from(s: Seq<char>, kind: char, from: int) -> int
    decreases s.len() - from,
{
    if from < 0 || from + 1 >= s.len() {
        s.len() as int
    } else if marker_at(s, kind, from) {
        from
    } else {
        marker_from(s, kind, from + 1)
    }
}

/// `s` with its first marker replaced by `arg`; `s` itself when it has none.
pub open spec fn replace_first(s: Seq<char>, kind: char, arg: Seq<char>) -> Seq<char> {
    let i = marker_from(s, kind, 0);
    if i < s.len() {
        s.subrange(0, i) + arg + s.subrange(i + 2, s.len() as int)
    } else {
        s
    }
}

/// `s` with the first `%s` replaced by the first argument, then the first
/// `%s` of the result by the second, and so on.
pub open spec fn fill(s: Seq<char>, args: Seq<Seq<char>>) -> Seq<char>
    decreases args.len(),
{
    if args.len() == 0 {
        s
    } else {
        fill(replace_first(s, 's', args[0]), args.drop_first())
    }
}

/// The first marker is a marker, and none stands before it.
pub proof fn lemma_marker_from(s: Seq<char>, kind: char, from: int)
    requires
        0 <= from,
    ensures
        from <= marker_from(s, kind, from) || marker_from(s, kind, from) == s.len(),
        marker_from(s, kind, from) <= s.len(),
        marker_from(s, kind, from) < s.len() ==> marker_at(s, kind, marker_from(s, kind, from)),
        forall|j: int| from <= j < marker_from(s, kind, from) ==> !marker_at(s, kind, j),
    decreases s.len() - from,
{
    if from + 1 >= s.len() {
    } else if marker_at(s, kind, from) {
    } else {
        lemma_marker_from(s, kind, from + 1);
    }
}

/// Finds the first marker in `s`.
pub fn find_marker(s: &str, kind: char) -> (r: Option<usize>)
    ensures
        match r {
            Some(i) => i as int == marker_from(s@, kind, 0) && marker_at(s@, kind, i as int),
            None => marker_from(s@, kind, 0) == s@.len(),
        },
        forall|j: int|
            0 <= j && (r matches Some(i) ==> j < i) ==> !marker_at(s@, kind, j),
{
    let n = s.unicode_len();
    if n < 2 {
        return None;
    }
    let mut i: usize = 0;
    while i < n - 1
        invariant
            n == s@.len(),
            n >= 2,
            i <= n - 1,
            marker_from(s@, kind, 0) == marker_from(s@, kind, i as int),
        decreases n - i,
    {
        if s.get_char(i) == '%' && s.get_char(i + 1) == kind {
            proof {
                lemma_marker_from(s@, kind, 0);
            }
            return Some(i);
        }
        i += 1;
    }
    proof {
        lemma_marker_from(s@, kind, 0);
    }
    None
}

/// Replaces the first marker of `s` by `arg`.
pub fn replace_marker(s: &str, kind: char, arg: &str) -> (r: String)
    ensures
        r@ == replace_first(s@, kind, arg@),
{
    match find_marker(s, kind) {
        Some(i) => {
            let n = s.unicode_len();
            let mut r = s.substring_char(0, i).to_owned();
            r.append(arg);
            r.append(s.substring_char(i + 2, n));
            r
        },
        None => s.to_owned(),
    }
}

/// Where the last segment of `s` begins, looking at the first `upto`
/// characters: behind the last `sep` among them, or at 0 when there is none.
pub open spec fn after_last(s: Seq<char>, sep: char, upto: int) -> int
    decreases upto,
{
    if upto <= 0 {
        0
    } else if s[upto - 1] == sep {
        upto
    } else {
        after_last(s, sep, upto - 1)
    }
}

/// What stands behind the last `sep` in `s`; all of `s` when it holds none.
pub open spec fn last_segment(s: Seq<char>, sep: char) -> Seq<char> {
    s.subrange(after_last(s, sep, s.len() as int), s.len() as int)
}

/// The last segment begins within the text, behind a separator or at the
/// start, and holds no separator.
pub proof fn lemma_after_last(s: Seq<char>, sep: char, upto: int)
    requires
        0 <= upto <= s.len(),
    ensures
        0 <= after_last(s, sep, upto) <= upto,
        after_last(s, sep, upto) > 0 ==> s[after_last(s, sep, upto) - 1] == sep,
        forall|j: int| after_last(s, sep, upto) <= j < upto ==> s[j] != sep,
    decreases upto,
{
    if upto > 0 && s[upto - 1] != sep {
        lemma_after_last(s, sep, upto - 1);
    }
}

/// Returns what stands behind the last `sep` in `s`.
pub fn last_segment_of(s: &str, sep: char) -> (r: String)
    ensures
        r@ == last_segment(s@, sep),
        forall|j: int| 0 <= j < r@.len() ==> r@[j] != sep,
{
    let n = s.unicode_len();
    proof {
        lemma_after_last(s@, sep, n as int);
    }
    let mut i: usize = n;
    while i > 0 && s.get_char(i - 1) != sep
        invariant
            n == s@.len(),
            i <= n,
            after_last(s@, sep, n as int) == after_last(s@, sep, i as int),
        decreases i,
    {
        i -= 1;
    }
    s.substring_char(i, n).to_owned()
}

/// Position of the first `sep` in `s` at or after `from`; `s.len()` when
/// there is none.
pub open spec fn first_at(s: Seq<char>, sep: char, from: int) -> int
    decreases s.len() - from,
{
    if from < 0 || from >= s.len() {
        s.len() as int
    } else if s[from] == sep {
        from
    } else {
        first_at(s, sep, from + 1)
    }
}

/// What stands behind the first `sep` in `s`, kept whole; all of `s` when
/// it holds none.
pub open spec fn after_first(s: Seq<char>, sep: char) -> Seq<char> {
    let cut = first_at(s, sep, 0);
    if cut < s.len() {
        s.subrange(cut + 1, s.len() as int)
    } else {
        s
    }
}

/// The first separator is a separator, and none stands before it.
pub proof fn lemma_first_at(s: Seq<char>, sep: char, from: int)
    requires
        0 <= from,
    ensures
        first_at(s, sep, from) <= s.len(),
        from <= first_at(s, sep, from) || first_at(s, sep, from) == s.len(),
        first_at(s, sep, from) < s.len() ==> s[first_at(s, sep, from)] == sep,
        forall|j: int| from <= j < first_at(s, sep, from) ==> s[j] != sep,
    decreases s.len() - from,
{
    if from < s.len() && s[from] != sep {
        lemma_first_at(s, sep, from + 1);
    }
}

/// Returns what stands behind the first `sep` in `s`; `s` itself when it
/// holds none.
pub fn after_first_of(s: &str, sep: char) -> (r: String)
    ensures
        r@ == after_first(s@, sep),
        (forall|j: int| 0 <= j < s@.len() ==> s@[j] != sep) ==> r@ == s@,
{
    let n = s.unicode_len();
    let mut i: usize = 0;
    while i < n
        invariant
            n == s@.len(),
            i <= n,
            first_at(s@, sep, 0) == first_at(s@, sep, i as int),
        decreases n - i,
    {
        if s.get_char(i) == sep {
            proof {
                lemma_first_at(s@, sep, 0);
            }
            return s.substring_char(i + 1, n).to_owned();
        }
        i += 1;
    }
    s.to_owned()
}

/// The text of an optional string; empty when there is none.
pub open spec fn or_empty(o: Option<String>) -> Seq<char> {
    match o {
        Some(s) => s@,
        None => Seq::empty(),
    }
}

/// The characters of an optional string.
pub open spec fn chars_of(o: Option<String>) -> Option<Seq<char>> {
    match o {
        Some(s) => Some(s@),
        None => None,
    }
}

/// Returns the text of an optional string, or the empty text.
pub fn text_or_empty(o: &Option<String>) -> (r: &str)
    ensures
        r@ == or_empty(*o),
{
    match o {
        Some(s) => s.as_str(),
        None => {
            proof {
                reveal_strlit("");
            }
            ""
        },
    }
}

/// True when `s` begins with `prefix`.
pub open spec fn begins(s: Seq<char>, prefix: Seq<char>) -> bool {
    prefix.len() <= s.len() && s.subrange(0, prefix.len() as int) == prefix
}

/// Tells whether `s` begins with `prefix`.
pub fn begins_with(s: &str, prefix: &str) -> (r: bool)
    ensures
        r == begins(s@, prefix@),
{
    let n = prefix.unicode_len();
    if s.unicode_len() < n {
        false
    } else {
        s.substring_char(0, n).eq(prefix)
    }
}

/// The characters of each string slice.
pub open spec fn each_chars(strings: Seq<&str>) -> Seq<Seq<char>> {
    strings.map_values(|s: &str| s@)
}

} // verus!
