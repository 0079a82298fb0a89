//! Text as sequences of characters: the operations that the add-on rules are
//! stated with, each with the executable function that computes it.

use vstd::prelude::*;
use vstd::string::*;

verus! {

/// Where the last `c` of `s` stands, or -1 where `s` holds none.
pub open spec fn last_position(s: Seq<char>, c: char) -> int
    decreases s.len(),
{
    if s.len() == 0 {
        -1
    } else if s.last() == c {
        s.len() - 1
    } else {
        last_position(s.drop_last(), c)
    }
}

/// What follows the last `c` of `s`; all of `s` where it holds none.
pub open spec fn after_last(s: Seq<char>, c: char) -> Seq<char> {
    s.skip(last_position(s, c) + 1)
}

/// `needle` stands in `hay` at position `at`.
pub open spec fn occurs_at(needle: Seq<char>, hay: Seq<char>, at: int) -> bool {
    &&& 0 <= at
    &&& at + needle.len() <= hay.len()
    &&& hay.subrange(at, at + needle.len()) == needle
}

/// `needle` stands somewhere in `hay`.
pub open spec fn occurs_in(needle: Seq<char>, hay: Seq<char>) -> bool {
    exists|at: int| occurs_at(needle, hay, at)
}

/// `s` with `with` in the place of every `c`.
pub open spec fn replaced(s: Seq<char>, c: char, with: Seq<char>) -> Seq<char>
    decreases s.len(),
{
    if s.len() == 0 {
        Seq::empty()
    } else {
        replaced(s.drop_last(), c, with) + if s.last() == c {
            with
        } else {
            seq![s.last()]
        }
    }
}

/// A single or a double quotation mark.
pub open spec fn is_quote(c: char) -> bool {
    c == '\'' || c == '"'
}

/// How many quotation marks `s` starts with.
pub open spec fn leading_quotes(s: Seq<char>) -> nat
    decreases s.len(),
{
    if s.len() > 0 && is_quote(s.first()) {
        1 + leading_quotes(s.drop_first())
    } else {
        0
    }
}

/// How many quotation marks `s` ends with.
pub open spec fn trailing_quotes(s: Seq<char>) -> nat
    decreases s.len(),
{
    if s.len() > 0 && is_quote(s.last()) {
        1 + trailing_quotes(s.drop_last())
    } else {
        0
    }
}

/// `s` without the quotation marks at its two ends.
pub open spec fn unquoted(s: Seq<char>) -> Seq<char> {
    let rest = s.skip(leading_quotes(s) as int);
    rest.take(rest.len() - trailing_quotes(rest))
}

/// Where the extension of the file name `name` begins, the dot counted: the
/// last dot, unless the name has none, starts with its only dot or is `..`.
pub open spec fn extension_dot(name: Seq<char>) -> Option<int> {
    let dot = last_position(name, '.');
    if dot <= 0 || name == seq!['.', '.'] {
        None
    } else {
        Some(dot)
    }
}

/// The extension of a file name: what follows its last dot.
pub open spec fn extension(name: Seq<char>) -> Option<Seq<char>> {
    match extension_dot(name) {
        Some(dot) => Some(name.skip(dot + 1)),
        None => None,
    }
}

/// A file name without its extension.
pub open spec fn stem(name: Seq<char>) -> Seq<char> {
    match extension_dot(name) {
        Some(dot) => name.take(dot),
        None => name,
    }
}

/// The decimal digit of `d`.
pub open spec fn digit(d: int) -> char {
    if d == 0 {
        '0'
    } else if d == 1 {
        '1'
    } else if d == 2 {
        '2'
    } else if d == 3 {
        '3'
    } else if d == 4 {
        '4'
    } else if d == 5 {
        '5'
    } else if d == 6 {
        '6'
    } else if d == 7 {
        '7'
    } else if d == 8 {
        '8'
    } else {
        '9'
    }
}

/// The number that a decimal digit stands for.
pub open spec fn digit_value(c: char) -> Option<int> {
    if c == '0' {
        Some(0)
    } else if c == '1' {
        Some(1)
    } else if c == '2' {
        Some(2)
    } else if c == '3' {
        Some(3)
    } else if c == '4' {
        Some(4)
    } else if c == '5' {
        Some(5)
    } else if c == '6' {
        Some(6)
    } else if c == '7' {
        Some(7)
    } else if c == '8' {
        Some(8)
    } else if c == '9' {
        Some(9)
    } else {
        None
    }
}

/// `n` in decimal digits, without leading zeros.
pub open spec fn decimal(n: nat) -> Seq<char>
    decreases n,
{
    if n < 10 {
        seq![digit(n as int)]
    } else {
        decimal(n / 10).push(digit((n % 10) as int))
    }
}

/// The number that the decimal digits `s` stand for; none where `s` is
/// empty or holds anything but digits.
pub open spec fn number_of(s: Seq<char>) -> Option<nat>
    decreases s.len(),
{
    if s.len() == 0 {
        None
    } else {
        match digit_value(s.last()) {
            Some(d) => if s.len() == 1 {
                Some(d as nat)
            } else {
                match number_of(s.drop_last()) {
                    Some(n) => Some((n * 10 + d) as nat),
                    None => None,
                }
            },
            None => None,
        }
    }
}

/// The characters of an optional text.
pub open spec fn text_view(text: Option<String>) -> Option<Seq<char>> {
    match text {
        Some(t) => Some(t@),
        None => None,
    }
}

/// The characters of each of `names`.
pub open spec fn names_view(names: Seq<String>) -> Seq<Seq<char>> {
    Seq::new(names.len(), |i: int| names[i]@)
}

/// The lower-case form that `str::to_lowercase` gives a text. Nothing is
/// stated of it but that name.
pub uninterp spec fn lowered(s: Seq<char>) -> Seq<char>;

/// `last_position` is within `s`, names a `c`, and no `c` follows it.
pub proof fn last_position_is_last(s: Seq<char>, c: char)
    ensures
        -1 <= last_position(s, c) < s.len(),
        last_position(s, c) >= 0 ==> s[last_position(s, c)] == c,
        forall|j: int| last_position(s, c) < j < s.len() ==> s[j] != c,
    decreases s.len(),
{
    if s.len() > 0 && s.last() != c {
        let front = s.drop_last();
        last_position_is_last(front, c);
        assert forall|j: int| last_position(s, c) < j < s.len() implies s[j] != c by {
            if j < front.len() {
                assert(front[j] == s[j]);
            }
        }
    }
}

/// The quotation marks at the start of `s` are counted up to its first
/// character that is none.
pub proof fn leading_quotes_is_first_other(s: Seq<char>, n: int)
    requires
        0 <= n <= s.len(),
        forall|j: int| 0 <= j < n ==> is_quote(s[j]),
        n < s.len() ==> !is_quote(s[n]),
    ensures
        leading_quotes(s) == n,
    decreases s.len(),
{
    if n > 0 {
        let rest = s.drop_first();
        assert forall|j: int| 0 <= j < n - 1 implies is_quote(rest[j]) by {
            assert(rest[j] == s[j + 1]);
        }
        leading_quotes_is_first_other(rest, n - 1);
    }
}

/// The quotation marks at the end of `s` are counted down to its last
/// character that is none.
pub proof fn trailing_quotes_is_last_other(s: Seq<char>, n: int)
    requires
        0 <= n <= s.len(),
        forall|j: int| s.len() - n <= j < s.len() ==> is_quote(s[j]),
        n < s.len() ==> !is_quote(s[s.len() - n - 1]),
    ensures
        trailing_quotes(s) == n,
    decreases s.len(),
{
    if n > 0 {
        trailing_quotes_is_last_other(s.drop_last(), n - 1);
    }
}

/// The digits of a number stand for that number.
pub proof fn number_of_decimal(n: nat)
    ensures
        number_of(decimal(n)) == Some(n),
        decimal(n).len() >= 1,
    decreases n,
{
    if n >= 10 {
        number_of_decimal(n / 10);
        let digits = decimal(n);
        assert(digits.drop_last() =~= decimal(n / 10));
        assert(digits.last() == digit((n % 10) as int));
    }
}

/// Digits with anything else among them stand for no number.
pub proof fn digits_only(s: Seq<char>, at: int)
    requires
        0 <= at < s.len(),
        digit_value(s[at]) is None,
    ensures
        number_of(s) is None,
    decreases s.len(),
{
    if at < s.len() - 1 {
        digits_only(s.drop_last(), at);
    }
}

/// The characters of `s`, one by one.
pub fn chars_of(s: &str) -> (chars: Vec<char>)
    ensures
        chars@ == s@,
{
    let mut chars: Vec<char> = Vec::new();
    for c in it: s.chars()
        invariant
            it.seq() == s@,
            chars@ =~= s@.take(it.index()),
    {
        chars.push(c);
    }
    assert(chars@ =~= s@);
    chars
}

/// Whether two texts hold the same characters.
pub fn same(a: &str, b: &str) -> (r: bool)
    ensures
        r == (a@ == b@),
{
    a.to_owned() == b.to_owned()
}

/// A copy of an optional text.
pub fn copy_text(text: &Option<String>) -> (r: Option<String>)
    ensures
        text_view(r) == text_view(*text),
{
    match text {
        Some(t) => Some(t.clone()),
        None => None,
    }
}

/// A copy of `names`.
pub fn copy_names(names: &Vec<String>) -> (r: Vec<String>)
    ensures
        names_view(r@) == names_view(names@),
{
    let mut r: Vec<String> = Vec::new();
    let mut i: usize = 0;
    while i < names.len()
        invariant
            i <= names.len(),
            r@.len() == i,
            forall|j: int| 0 <= j < i ==> r@[j]@ == names@[j]@,
        decreases names.len() - i,
    {
        r.push(names[i].clone());
        i += 1;
    }
    assert(names_view(r@) =~= names_view(names@));
    r
}

/// Calls `str::to_lowercase`. Taken on trust: what comes back depends on the
/// characters of `s` alone. The contract gives it the name [`lowered`] and
/// says nothing else of it.
#[verifier::external_body]
pub(crate) fn to_lowercase(s: &str) -> (r: String)
    ensures
        r@ == lowered(s@),
{
    s.to_lowercase()
}

/// The index of the last `c` among `chars`.
pub fn find_last(chars: &Vec<char>, c: char) -> (r: Option<usize>)
    ensures
        match r {
            Some(i) => i == last_position(chars@, c),
            None => last_position(chars@, c) == -1,
        },
{
    let mut i: usize = chars.len();
    assert(chars@.take(i as int) =~= chars@);
    while i > 0
        invariant
            i <= chars.len(),
            last_position(chars@, c) == last_position(chars@.take(i as int), c),
        decreases i,
    {
        proof {
            assert(chars@.take(i as int).drop_last() =~= chars@.take(i - 1));
        }
        if chars[i - 1] == c {
            return Some(i - 1);
        }
        i -= 1;
    }
    None
}

/// The part of `s` after its last `c`.
pub fn last_segment(s: &str, c: char) -> (r: String)
    ensures
        r@ == after_last(s@, c),
{
    let chars = chars_of(s);
    proof {
        last_position_is_last(s@, c);
    }
    let from: usize = match find_last(&chars, c) {
        Some(i) => i + 1,
        None => 0,
    };
    s.substring_char(from, chars.len()).to_owned()
}

/// Whether `needle` stands in `hay` at `at`.
fn occurs_here(needle: &Vec<char>, hay: &Vec<char>, at: usize) -> (r: bool)
    requires
        at + needle.len() <= hay.len(),
    ensures
        r == occurs_at(needle@, hay@, at as int),
{
    let mut j: usize = 0;
    while j < needle.len()
        invariant
            j <= needle.len(),
            at + needle.len() <= hay.len(),
            forall|k: int| 0 <= k < j ==> hay@[at + k] == needle@[k],
        decreases needle.len() - j,
    {
        if hay[at + j] != needle[j] {
            assert(hay@.subrange(at as int, at + needle.len())[j as int] != needle@[j as int]);
            return false;
        }
        j += 1;
    }
    assert(hay@.subrange(at as int, at + needle.len()) =~= needle@);
    true
}

/// Whether `needle` stands somewhere in `hay`.
pub fn occurs(needle: &Vec<char>, hay: &Vec<char>) -> (r: bool)
    ensures
        r == occurs_in(needle@, hay@),
{
    if needle.len() > hay.len() {
        return false;
    }
    let last: usize = hay.len() - needle.len();
    let mut at: usize = 0;
    loop
        invariant
            last == hay.len() - needle.len(),
            at <= last,
            forall|k: int| 0 <= k < at ==> !occurs_at(needle@, hay@, k),
        decreases last - at,
    {
        if occurs_here(needle, hay, at) {
            return true;
        }
        if at == last {
            return false;
        }
        at += 1;
    }
}

/// `s` with `with` in the place of every `c`.
pub fn replace(s: &str, c: char, with: &str) -> (r: String)
    ensures
        r@ == replaced(s@, c, with@),
{
    let chars = chars_of(s);
    let mut out = String::new();
    let mut i: usize = 0;
    while i < chars.len()
        invariant
            i <= chars.len(),
            chars@ == s@,
            out@ == replaced(s@.take(i as int), c, with@),
        decreases chars.len() - i,
    {
        proof {
            assert(s@.take(i + 1).drop_last() =~= s@.take(i as int));
            assert(s@.subrange(i as int, i + 1) =~= seq![s@[i as int]]);
        }
        if chars[i] == c {
            out.append(with);
        } else {
            out.append(s.substring_char(i, i + 1));
        }
        i += 1;
    }
    assert(s@.take(chars.len() as int) =~= s@);
    out
}

/// Whether `c` is a single or a double quotation mark.
pub fn quote(c: char) -> (r: bool)
    ensures
        r == is_quote(c),
{
    c == '\'' || c == '"'
}

/// `s` without the quotation marks at its two ends.
pub fn unquote(s: &str) -> (r: String)
    ensures
        r@ == unquoted(s@),
{
    let chars = chars_of(s);
    let mut from: usize = 0;
    while from < chars.len() && quote(chars[from])
        invariant
            from <= chars.len(),
            forall|j: int| 0 <= j < from ==> is_quote(chars@[j]),
        decreases chars.len() - from,
    {
        from += 1;
    }
    let mut to: usize = chars.len();
    while to > from && quote(chars[to - 1])
        invariant
            from <= to <= chars.len(),
            forall|j: int| to <= j < chars.len() ==> is_quote(chars@[j]),
        decreases to,
    {
        to -= 1;
    }
    proof {
        leading_quotes_is_first_other(s@, from as int);
        let rest = s@.skip(from as int);
        trailing_quotes_is_last_other(rest, chars.len() - to);
        assert(rest.take(rest.len() - (chars.len() - to)) =~= s@.subrange(from as int, to as int));
    }
    s.substring_char(from, to).to_owned()
}

/// The decimal digit of `d`, as a text.
fn digit_text(d: u32) -> (r: &'static str)
    requires
        d < 10,
    ensures
        r@ == seq![digit(d as int)],
{
    proof {
        reveal_strlit("0");
        reveal_strlit("1");
        reveal_strlit("2");
        reveal_strlit("3");
        reveal_strlit("4");
        reveal_strlit("5");
        reveal_strlit("6");
        reveal_strlit("7");
        reveal_strlit("8");
        reveal_strlit("9");
    }
    let text = if d == 0 {
        "0"
    } else if d == 1 {
        "1"
    } else if d == 2 {
        "2"
    } else if d == 3 {
        "3"
    } else if d == 4 {
        "4"
    } else if d == 5 {
        "5"
    } else if d == 6 {
        "6"
    } else if d == 7 {
        "7"
    } else if d == 8 {
        "8"
    } else {
        "9"
    };
    assert(text@ =~= seq![digit(d as int)]);
    text
}

/// `n` in decimal digits.
pub fn to_decimal(n: u32) -> (r: String)
    ensures
        r@ == decimal(n as nat),
    decreases n,
{
    if n < 10 {
        digit_text(n).to_owned()
    } else {
        let mut digits = to_decimal(n / 10);
        digits.append(digit_text(n % 10));
        assert(digits@ =~= decimal((n / 10) as nat).push(digit((n % 10) as int)));
        digits
    }
}

/// The number that the decimal digit `c` stands for.
fn value_of_digit(c: char) -> (r: Option<u64>)
    ensures
        match r {
            Some(d) => digit_value(c) == Some(d as int) && d < 10,
            None => digit_value(c) is None,
        },
{
    if c == '0' {
        Some(0)
    } else if c == '1' {
        Some(1)
    } else if c == '2' {
        Some(2)
    } else if c == '3' {
        Some(3)
    } else if c == '4' {
        Some(4)
    } else if c == '5' {
        Some(5)
    } else if c == '6' {
        Some(6)
    } else if c == '7' {
        Some(7)
    } else if c == '8' {
        Some(8)
    } else if c == '9' {
        Some(9)
    } else {
        None
    }
}

/// The number that the decimal digits `s` stand for, where it fits 32 bits.
pub fn from_decimal(s: &str) -> (r: Option<u32>)
    ensures
        match r {
            Some(n) => number_of(s@) == Some(n as nat),
            None => match number_of(s@) {
                Some(n) => n > u32::MAX,
                None => true,
            },
        },
{
    let chars = chars_of(s);
    if chars.len() == 0 {
        return None;
    }
    let mut value: u64 = 0;
    let mut over: bool = false;
    let ghost mut exact: nat = 0;
    let mut i: usize = 0;
    while i < chars.len()
        invariant
            i <= chars.len(),
            chars@ == s@,
            i > 0 ==> number_of(s@.take(i as int)) == Some(exact),
            i == 0 ==> exact == 0,
            !over ==> value == exact && exact <= u32::MAX,
            over ==> exact > u32::MAX,
        decreases chars.len() - i,
    {
        proof {
            assert(s@.take(i + 1).drop_last() =~= s@.take(i as int));
            assert(s@.take(i + 1).last() == s@[i as int]);
        }
        match value_of_digit(chars[i]) {
            Some(d) => {
                proof {
                    exact = exact * 10 + d as nat;
                }
                if !over {
                    value = value * 10 + d;
                    if value > u32::MAX as u64 {
                        over = true;
                    }
                }
            },
            None => {
                proof {
                    digits_only(s@, i as int);
                }
                return None;
            },
        }
        i += 1;
    }
    assert(s@.take(chars.len() as int) =~= s@);
    if over {
        None
    } else {
        Some(value as u32)
    }
}

/// Where the extension of the file name `name` begins.
fn find_extension(chars: &Vec<char>) -> (r: Option<usize>)
    ensures
        match r {
            Some(dot) => extension_dot(chars@) == Some(dot as int),
            None => extension_dot(chars@) is None,
        },
{
    let both_dots = chars.len() == 2 && chars[0] == '.' && chars[1] == '.';
    proof {
        if both_dots {
            assert(chars@ =~= seq!['.', '.']);
        }
    }
    match find_last(chars, '.') {
        Some(dot) => if dot == 0 || both_dots {
            None
        } else {
            Some(dot)
        },
        None => None,
    }
}

/// The extension of the file name `name`, where it has one.
pub fn file_extension(name: &str) -> (r: Option<String>)
    ensures
        match r {
            Some(e) => extension(name@) == Some(e@),
            None => extension(name@) is None,
        },
{
    let chars = chars_of(name);
    proof {
        last_position_is_last(name@, '.');
    }
    match find_extension(&chars) {
        Some(dot) => Some(name.substring_char(dot + 1, chars.len()).to_owned()),
        None => None,
    }
}

/// The file name `name` without its extension.
pub fn file_stem(name: &str) -> (r: String)
    ensures
        r@ == stem(name@),
{
    let chars = chars_of(name);
    proof {
        last_position_is_last(name@, '.');
    }
    match find_extension(&chars) {
        Some(dot) => name.substring_char(0, dot).to_owned(),
        None => name.to_owned(),
    }
}

} // verus!
