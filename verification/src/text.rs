//! Character-level helpers on strings, used by the name tables, the Morse
//! encoder and the sysfs readers.

use vstd::prelude::*;
use vstd::string::StringExecFns;

verus! {

/// The characters of `s`, in order.
pub fn chars_of(s: &str) -> (r: Vec<char>)
    ensures
        r@ == s@,
{
    let n = s.unicode_len();
    let mut out: Vec<char> = Vec::new();
    let mut i: usize = 0;
    while i < n
        invariant
            n == s@.len(),
            i <= n,
            out@ == s@.subrange(0, i as int),
        decreases n - i,
    {
        let c = s.get_char(i);
        out.push(c);
        i = i + 1;
        assert(out@ =~= s@.subrange(0, i as int));
    }
    assert(out@ =~= s@);
    out
}

/// Whether two character sequences are equal.
pub fn chars_eq(a: &Vec<char>, b: &Vec<char>) -> (r: bool)
    ensures
        r == (a@ == b@),
{
    if a.len() != b.len() {
        return false;
    }
    let mut i: usize = 0;
    while i < a.len()
        invariant
            a@.len() == b@.len(),
            i <= a@.len(),
            forall|j: int| 0 <= j < i ==> a@[j] == b@[j],
        decreases a@.len() - i,
    {
        if a[i] != b[i] {
            return false;
        }
        i = i + 1;
    }
    assert(a@ =~= b@);
    true
}

/// Whether `s` spells `lit` exactly.
pub fn str_is(s: &str, lit: &str) -> (r: bool)
    ensures
        r == (s@ == lit@),
{
    let a = chars_of(s);
    let b = chars_of(lit);
    chars_eq(&a, &b)
}


/// Whether `c` has the Unicode White_Space property, which is what
/// `char::is_whitespace` tests: tab through carriage return, space, next
/// line, no-break space, Ogham space mark, the spaces from en quad to hair
/// space, the line and paragraph separators, narrow no-break space, medium
/// mathematical space and ideographic space.
pub open spec fn white_space(c: char) -> bool {
    let n = c as int;
    ||| 0x09 <= n <= 0x0D
    ||| n == 0x20
    ||| n == 0x85
    ||| n == 0xA0
    ||| n == 0x1680
    ||| 0x2000 <= n <= 0x200A
    ||| n == 0x2028
    ||| n == 0x2029
    ||| n == 0x202F
    ||| n == 0x205F
    ||| n == 0x3000
}

/// Whether `c` has the White_Space property (the test `char::is_whitespace`
/// makes).
pub fn is_white(c: char) -> (r: bool)
    ensures
        r == white_space(c),
{
    let n = c as u32;
    (0x09 <= n && n <= 0x0D) || n == 0x20 || n == 0x85 || n == 0xA0 || n == 0x1680 || (0x2000
        <= n && n <= 0x200A) || n == 0x2028 || n == 0x2029 || n == 0x202F || n == 0x205F || n
        == 0x3000
}

/// Whether `c` is an ASCII character.
pub open spec fn is_ascii_char(c: char) -> bool {
    (c as int) < 128
}

/// Whether every character of `s` is ASCII.
pub open spec fn all_ascii(s: Seq<char>) -> bool {
    forall|i: int| 0 <= i < s.len() ==> is_ascii_char(#[trigger] s[i])
}

/// `c` with an ASCII lower-case letter turned upper case.
pub open spec fn ascii_upper_char(c: char) -> char {
    if 'a' <= c <= 'z' {
        ((c as int) - 32) as char
    } else {
        c
    }
}

/// `c` with an ASCII upper-case letter turned lower case.
pub open spec fn ascii_lower_char(c: char) -> char {
    if 'A' <= c <= 'Z' {
        ((c as int) + 32) as char
    } else {
        c
    }
}

/// `ascii_upper_char` as a function value.
pub open spec fn upper_fn() -> spec_fn(char) -> char {
    |c: char| ascii_upper_char(c)
}

/// `ascii_lower_char` as a function value.
pub open spec fn lower_fn() -> spec_fn(char) -> char {
    |c: char| ascii_lower_char(c)
}

/// `s` with its ASCII letters in upper case.
pub open spec fn ascii_upper(s: Seq<char>) -> Seq<char> {
    s.map_values(upper_fn())
}

/// `s` with its ASCII letters in lower case.
pub open spec fn ascii_lower(s: Seq<char>) -> Seq<char> {
    s.map_values(lower_fn())
}

/// The upper-case form of a string that is not all ASCII, in the sense of
/// `str::to_uppercase` (the Unicode case mappings).
pub uninterp spec fn unicode_uppercased(s: Seq<char>) -> Seq<char>;

/// The upper-case form of a string in the sense of `str::to_uppercase`: on
/// ASCII text the letters `a` to `z` become `A` to `Z` and every other
/// character stays; beyond ASCII the Unicode mappings apply.
pub open spec fn uppercased(s: Seq<char>) -> Seq<char> {
    if all_ascii(s) {
        ascii_upper(s)
    } else {
        unicode_uppercased(s)
    }
}

/// Calls `str::to_uppercase`. On ASCII text its result is the text with the
/// letters `a` to `z` in upper case, as the standard library documents (it
/// upper-cases ASCII characters as `to_ascii_uppercase` does, and non-ASCII
/// ones besides); for other text the result is named
/// `unicode_uppercased(s@)`.
#[verifier::external_body]
pub(crate) fn to_upper(s: &str) -> (r: String)
    ensures
        r@ == uppercased(s@),
        !all_ascii(s@) ==> r@ == unicode_uppercased(s@),
{
    s.to_uppercase()
}

/// `s` without its leading whitespace.
pub open spec fn trim_front(s: Seq<char>) -> Seq<char>
    decreases s.len(),
{
    if s.len() > 0 && white_space(s[0]) {
        trim_front(s.drop_first())
    } else {
        s
    }
}

/// `s` without its trailing whitespace.
pub open spec fn trim_back(s: Seq<char>) -> Seq<char>
    decreases s.len(),
{
    if s.len() > 0 && white_space(s.last()) {
        trim_back(s.drop_last())
    } else {
        s
    }
}

/// `s` without leading and trailing whitespace (as `str::trim`).
pub open spec fn trimmed(s: Seq<char>) -> Seq<char> {
    trim_back(trim_front(s))
}

proof fn lemma_trim_front_skip(s: Seq<char>, i: int)
    requires
        0 <= i < s.len(),
        white_space(s[i]),
    ensures
        trim_front(s.subrange(i, s.len() as int)) == trim_front(s.subrange(i + 1, s.len() as int)),
{
    let t = s.subrange(i, s.len() as int);
    assert(t.drop_first() =~= s.subrange(i + 1, s.len() as int));
}

proof fn lemma_trim_back_skip(s: Seq<char>, j: int)
    requires
        0 < j <= s.len(),
        white_space(s[j - 1]),
    ensures
        trim_back(s.subrange(0, j)) == trim_back(s.subrange(0, j - 1)),
{
    let t = s.subrange(0, j);
    assert(t.drop_last() =~= s.subrange(0, j - 1));
}

/// The bounds `[a, b)` of `s` with leading and trailing whitespace removed.
pub fn trim_bounds(s: &Vec<char>) -> (r: (usize, usize))
    ensures
        r.0 <= r.1 <= s@.len(),
        s@.subrange(r.0 as int, r.1 as int) == trimmed(s@),
{
    let n = s.len();
    let mut a: usize = 0;
    assert(s@.subrange(0, n as int) =~= s@);
    while a < n && is_white(s[a])
        invariant
            a <= n == s@.len(),
            trim_front(s@) == trim_front(s@.subrange(a as int, n as int)),
        decreases n - a,
    {
        proof {
            lemma_trim_front_skip(s@, a as int);
        }
        a = a + 1;
    }
    let ghost front = s@.subrange(a as int, n as int);
    proof {
        if a < n {
            assert(!white_space(s@[a as int]));
            assert(front[0] == s@[a as int]);
        }
        assert(trim_front(front) == front);
    }
    let mut b: usize = n;
    while b > a && is_white(s[b - 1])
        invariant
            a <= b <= n == s@.len(),
            front == s@.subrange(a as int, n as int),
            trim_back(front) == trim_back(s@.subrange(a as int, b as int)),
        decreases b - a,
    {
        proof {
            let t = s@.subrange(a as int, b as int);
            lemma_trim_back_skip(t, (b - a) as int);
            assert(t.subrange(0, (b - a) as int) =~= t);
            assert(t.subrange(0, (b - a - 1) as int) =~= s@.subrange(a as int, b - 1));
        }
        b = b - 1;
    }
    proof {
        let t = s@.subrange(a as int, b as int);
        if b > a {
            assert(t.last() == s@[b - 1]);
        }
        assert(trim_back(t) == t);
    }
    (a, b)
}

/// The words of `s` scanned up to position `k`: the finished words, and the
/// word in progress.
pub open spec fn scan_words(s: Seq<char>, k: nat) -> (Seq<Seq<char>>, Seq<char>)
    decreases k,
{
    if k == 0 || k > s.len() {
        (Seq::empty(), Seq::empty())
    } else {
        let (ws, cur) = scan_words(s, (k - 1) as nat);
        let c = s[k - 1];
        if white_space(c) {
            if cur.len() > 0 {
                (ws.push(cur), Seq::empty())
            } else {
                (ws, Seq::empty())
            }
        } else {
            (ws, cur.push(c))
        }
    }
}

/// The maximal runs of non-whitespace characters of `s`, in order (as
/// `str::split_whitespace`).
pub open spec fn words_of(s: Seq<char>) -> Seq<Seq<char>> {
    let (ws, cur) = scan_words(s, s.len());
    if cur.len() > 0 {
        ws.push(cur)
    } else {
        ws
    }
}

/// The character sequences of a list of words.
pub open spec fn words_view(ws: Seq<Vec<char>>) -> Seq<Seq<char>> {
    ws.map_values(|w: Vec<char>| w@)
}

/// Split `s` at whitespace into its words.
pub fn split_words(s: &Vec<char>) -> (r: Vec<Vec<char>>)
    ensures
        words_view(r@) == words_of(s@),
{
    let mut words: Vec<Vec<char>> = Vec::new();
    let mut cur: Vec<char> = Vec::new();
    let mut i: usize = 0;
    assert(words_view(words@) =~= Seq::<Seq<char>>::empty());
    while i < s.len()
        invariant
            i <= s@.len(),
            (words_view(words@), cur@) == scan_words(s@, i as nat),
        decreases s@.len() - i,
    {
        let c = s[i];
        if is_white(c) {
            if cur.len() > 0 {
                let ghost before = words@;
                let w = cur;
                words.push(w);
                proof {
                    assert(words_view(words@) =~= words_view(before).push(w@));
                }
                cur = Vec::new();
            }
        } else {
            cur.push(c);
        }
        i = i + 1;
    }
    if cur.len() > 0 {
        let ghost before = words@;
        let w = cur;
        words.push(w);
        proof {
            assert(words_view(words@) =~= words_view(before).push(w@));
        }
    }
    words
}


/// Whether `c` is an ASCII decimal digit.
pub open spec fn is_digit(c: char) -> bool {
    '0' <= c <= '9'
}

/// The value of a string of decimal digits.
pub open spec fn digits_value(s: Seq<char>) -> int
    decreases s.len(),
{
    if s.len() == 0 {
        0
    } else {
        digits_value(s.drop_last()) * 10 + (s.last() as int - '0' as int)
    }
}

/// Whether every character of `s` is a decimal digit.
pub open spec fn all_digits(s: Seq<char>) -> bool {
    forall|i: int| 0 <= i < s.len() ==> is_digit(#[trigger] s[i])
}

/// What `str::parse` accepts for an unsigned integer type whose largest
/// value is `max`: an optional `+`, then one or more decimal digits whose
/// value is at most `max`; anything else is rejected.
pub open spec fn parsed_unsigned(s: Seq<char>, max: int) -> Option<int> {
    let d = if s.len() > 0 && s[0] == '+' {
        s.drop_first()
    } else {
        s
    };
    if d.len() > 0 && all_digits(d) && digits_value(d) <= max {
        Some(digits_value(d))
    } else {
        None
    }
}

/// What `str::parse::<u32>` gives.
pub open spec fn parsed_u32(s: Seq<char>) -> Option<u32> {
    match parsed_unsigned(s, u32::MAX as int) {
        Some(v) => Some(v as u32),
        None => None,
    }
}

/// What `str::parse::<u8>` gives.
pub open spec fn parsed_u8(s: Seq<char>) -> Option<u8> {
    match parsed_unsigned(s, u8::MAX as int) {
        Some(v) => Some(v as u8),
        None => None,
    }
}

/// The message of the error `str::parse::<u8>` gives for `s` (empty when it
/// accepts `s`). The wording of the message is the standard library's and
/// is not stated.
#[verifier::external_body]
pub(crate) fn parse_u8_error(s: &str) -> String {
    match s.parse::<u8>() {
        Ok(_) => String::new(),
        Err(e) => e.to_string(),
    }
}

proof fn lemma_digits_value_nonneg(s: Seq<char>)
    requires
        forall|i: int| 0 <= i < s.len() ==> is_digit(#[trigger] s[i]),
    ensures
        digits_value(s) >= 0,
    decreases s.len(),
{
    if s.len() > 0 {
        lemma_digits_value_nonneg(s.drop_last());
    }
}

/// A longer run of digits is never worth less than its prefix.
proof fn lemma_digits_value_grows(s: Seq<char>, k: int)
    requires
        0 <= k <= s.len(),
        forall|i: int| 0 <= i < s.len() ==> is_digit(#[trigger] s[i]),
    ensures
        digits_value(s.subrange(0, k)) <= digits_value(s),
    decreases s.len() - k,
{
    if k < s.len() {
        lemma_digits_value_grows(s, k + 1);
        let p = s.subrange(0, k + 1);
        assert(p.drop_last() =~= s.subrange(0, k));
        lemma_digits_value_nonneg(s.subrange(0, k));
    } else {
        assert(s.subrange(0, k) =~= s);
    }
}

/// Parse a decimal `u32` the way `str::parse::<u32>` does.
pub fn parse_u32(s: &Vec<char>) -> (r: Option<u32>)
    ensures
        r == parsed_u32(s@),
{
    let n = s.len();
    let start: usize = if n > 0 && s[0] == '+' {
        1
    } else {
        0
    };
    let ghost d = if s@.len() > 0 && s@[0] == '+' {
        s@.drop_first()
    } else {
        s@
    };
    assert(d =~= s@.subrange(start as int, n as int));
    if start >= n {
        return None;
    }
    let mut acc: u64 = 0;
    let mut i: usize = start;
    while i < n
        invariant
            start <= i <= n == s@.len(),
            d =~= s@.subrange(start as int, n as int),
            d == (if s@.len() > 0 && s@[0] == '+' {
                s@.drop_first()
            } else {
                s@
            }),
            forall|j: int| start <= j < i ==> is_digit(#[trigger] s@[j]),
            acc == digits_value(s@.subrange(start as int, i as int)),
            acc <= u32::MAX,
        decreases n - i,
    {
        let c = s[i];
        if !('0' <= c && c <= '9') {
            proof {
                assert(d[i - start] == s@[i as int]);
                assert(!is_digit(d[i - start]));
                assert(!all_digits(d));
            }
            return None;
        }
        let digit: u64 = (c as u32 - '0' as u32) as u64;
        proof {
            let p = s@.subrange(start as int, i + 1);
            assert(p.drop_last() =~= s@.subrange(start as int, i as int));
            assert(p.last() == c);
            assert(digit == c as int - '0' as int);
            assert(digits_value(p) == acc * 10 + digit);
        }
        acc = acc * 10 + digit;
        if acc > 4294967295u64 {
            proof {
                let k = (i + 1 - start) as int;
                assert(s@.subrange(start as int, i + 1) =~= d.subrange(0, k));
                if all_digits(d) {
                    lemma_digits_value_grows(d, k);
                    assert(digits_value(d) > u32::MAX);
                }
            }
            return None;
        }
        i = i + 1;
    }
    assert(s@.subrange(start as int, n as int) =~= d);
    Some(acc as u32)
}

/// Parse a decimal `u8` the way `str::parse::<u8>` does.
pub fn parse_u8(s: &Vec<char>) -> (r: Option<u8>)
    ensures
        r == parsed_u8(s@),
{
    let r32 = parse_u32(s);
    let ghost wide = parsed_unsigned(s@, u32::MAX as int);
    match r32 {
        Some(v) => {
            proof {
                let d = if s@.len() > 0 && s@[0] == '+' {
                    s@.drop_first()
                } else {
                    s@
                };
                lemma_digits_value_nonneg(d);
            }
            assert(wide == Some(v as int));
            if v <= 255 {
                Some(v as u8)
            } else {
                None
            }
        },
        None => None,
    }
}

/// Whether `s` begins with `prefix`.
pub fn starts_with(s: &Vec<char>, prefix: &Vec<char>) -> (r: bool)
    ensures
        r == (prefix@.len() <= s@.len() && s@.subrange(0, prefix@.len() as int) == prefix@),
{
    if prefix.len() > s.len() {
        return false;
    }
    let mut i: usize = 0;
    while i < prefix.len()
        invariant
            prefix@.len() <= s@.len(),
            i <= prefix@.len(),
            forall|j: int| 0 <= j < i ==> s@[j] == prefix@[j],
        decreases prefix@.len() - i,
    {
        if s[i] != prefix[i] {
            assert(s@.subrange(0, prefix@.len() as int)[i as int] != prefix@[i as int]);
            return false;
        }
        i = i + 1;
    }
    assert(s@.subrange(0, prefix@.len() as int) =~= prefix@);
    true
}

/// The trimmed characters of `s`.
pub fn trim_chars(s: &Vec<char>) -> (r: Vec<char>)
    ensures
        r@ == trimmed(s@),
{
    let (a, b) = trim_bounds(s);
    let mut out: Vec<char> = Vec::new();
    let mut i: usize = a;
    while i < b
        invariant
            a <= i <= b <= s@.len(),
            out@ == s@.subrange(a as int, i as int),
        decreases b - i,
    {
        out.push(s[i]);
        i = i + 1;
        assert(out@ =~= s@.subrange(a as int, i as int));
    }
    out
}


/// The text of one decimal digit.
pub open spec fn digit_str(d: int) -> Seq<char> {
    if d == 0 {
        "0"@
    } else if d == 1 {
        "1"@
    } else if d == 2 {
        "2"@
    } else if d == 3 {
        "3"@
    } else if d == 4 {
        "4"@
    } else if d == 5 {
        "5"@
    } else if d == 6 {
        "6"@
    } else if d == 7 {
        "7"@
    } else if d == 8 {
        "8"@
    } else {
        "9"@
    }
}

/// The decimal text of a natural number, without leading zeros.
pub open spec fn decimal_text(n: nat) -> Seq<char>
    decreases n,
{
    if n < 10 {
        digit_str(n as int)
    } else {
        decimal_text(n / 10) + digit_str((n % 10) as int)
    }
}

/// The decimal text of an integer, with a leading `-` when it is negative
/// (as `Display` writes integers).
pub open spec fn signed_text(n: int) -> Seq<char> {
    if n < 0 {
        "-"@ + decimal_text((-n) as nat)
    } else {
        decimal_text(n as nat)
    }
}

/// Append the text of one decimal digit.
fn push_digit(out: &mut String, d: u64)
    requires
        d < 10,
    ensures
        final(out)@ == old(out)@ + digit_str(d as int),
{
    if d == 0 {
        out.append("0");
    } else if d == 1 {
        out.append("1");
    } else if d == 2 {
        out.append("2");
    } else if d == 3 {
        out.append("3");
    } else if d == 4 {
        out.append("4");
    } else if d == 5 {
        out.append("5");
    } else if d == 6 {
        out.append("6");
    } else if d == 7 {
        out.append("7");
    } else if d == 8 {
        out.append("8");
    } else {
        out.append("9");
    }
}

/// Append the decimal text of `n`.
pub fn push_decimal(out: &mut String, n: u64)
    ensures
        final(out)@ == old(out)@ + decimal_text(n as nat),
    decreases n,
{
    if n < 10 {
        push_digit(out, n);
    } else {
        let ghost before = out@;
        push_decimal(out, n / 10);
        push_digit(out, n % 10);
        assert(out@ =~= before + decimal_text(n as nat));
    }
}

/// The decimal text of a 32-bit integer.
pub fn i32_text(n: i32) -> (r: String)
    ensures
        r@ == signed_text(n as int),
{
    let mut out = String::new();
    if n < 0 {
        out.append("-");
        let m: u64 = (0i64 - n as i64) as u64;
        push_decimal(&mut out, m);
    } else {
        push_decimal(&mut out, n as u64);
    }
    out
}


/// Changing the case of ASCII letters keeps whether a character is
/// whitespace, and keeps ASCII characters ASCII.
pub proof fn lemma_case_keeps_kind(c: char)
    ensures
        white_space(ascii_upper_char(c)) == white_space(c),
        white_space(ascii_lower_char(c)) == white_space(c),
        is_ascii_char(c) ==> is_ascii_char(ascii_lower_char(c)),
        ascii_upper_char(ascii_lower_char(c)) == ascii_upper_char(c),
{
    if 'A' <= c <= 'Z' {
        let l = ((c as int) + 32) as char;
        assert(l as int == c as int + 32);
        assert('a' <= l <= 'z');
        assert(ascii_upper_char(l) as int == c as int);
    }
    if 'a' <= c <= 'z' {
        assert((((c as int) - 32) as char) as int == c as int - 32);
    }
}

/// A character map that keeps whitespace commutes with trimming the front.
proof fn lemma_trim_front_map(s: Seq<char>, f: spec_fn(char) -> char)
    requires
        forall|c: char| #[trigger] white_space(f(c)) == white_space(c),
    ensures
        trim_front(s.map_values(f)) == trim_front(s).map_values(f),
    decreases s.len(),
{
    let m = s.map_values(f);
    if s.len() > 0 && white_space(s[0]) {
        assert(white_space(f(s[0])));
        assert(m.drop_first() =~= s.drop_first().map_values(f));
        lemma_trim_front_map(s.drop_first(), f);
    } else if s.len() > 0 {
        assert(!white_space(f(s[0])));
    }
}

/// A character map that keeps whitespace commutes with trimming the back.
proof fn lemma_trim_back_map(s: Seq<char>, f: spec_fn(char) -> char)
    requires
        forall|c: char| #[trigger] white_space(f(c)) == white_space(c),
    ensures
        trim_back(s.map_values(f)) == trim_back(s).map_values(f),
    decreases s.len(),
{
    let m = s.map_values(f);
    if s.len() > 0 && white_space(s.last()) {
        assert(white_space(f(s.last())));
        assert(m.drop_last() =~= s.drop_last().map_values(f));
        lemma_trim_back_map(s.drop_last(), f);
    } else if s.len() > 0 {
        assert(!white_space(f(s.last())));
    }
}

/// A character map that keeps whitespace commutes with trimming.
pub proof fn lemma_trimmed_map(s: Seq<char>, f: spec_fn(char) -> char)
    requires
        forall|c: char| #[trigger] white_space(f(c)) == white_space(c),
    ensures
        trimmed(s.map_values(f)) == trimmed(s).map_values(f),
{
    lemma_trim_front_map(s, f);
    lemma_trim_back_map(trim_front(s), f);
}

proof fn lemma_trim_front_ascii(s: Seq<char>)
    requires
        all_ascii(s),
    ensures
        all_ascii(trim_front(s)),
    decreases s.len(),
{
    if s.len() > 0 && white_space(s[0]) {
        assert(all_ascii(s.drop_first())) by {
            assert forall|i: int| 0 <= i < s.drop_first().len() implies is_ascii_char(
                #[trigger] s.drop_first()[i],
            ) by {
                assert(s.drop_first()[i] == s[i + 1]);
            }
        }
        lemma_trim_front_ascii(s.drop_first());
    }
}

proof fn lemma_trim_back_ascii(s: Seq<char>)
    requires
        all_ascii(s),
    ensures
        all_ascii(trim_back(s)),
    decreases s.len(),
{
    if s.len() > 0 && white_space(s.last()) {
        assert(all_ascii(s.drop_last())) by {
            assert forall|i: int| 0 <= i < s.drop_last().len() implies is_ascii_char(
                #[trigger] s.drop_last()[i],
            ) by {
                assert(s.drop_last()[i] == s[i]);
            }
        }
        lemma_trim_back_ascii(s.drop_last());
    }
}

/// Trimming ASCII text leaves ASCII text.
pub proof fn lemma_trimmed_ascii(s: Seq<char>)
    requires
        all_ascii(s),
    ensures
        all_ascii(trimmed(s)),
{
    lemma_trim_front_ascii(s);
    lemma_trim_back_ascii(trim_front(s));
}

/// Each word of a word list with a character map applied.
pub open spec fn map_words(ws: Seq<Seq<char>>, f: spec_fn(char) -> char) -> Seq<Seq<char>> {
    ws.map_values(|w: Seq<char>| w.map_values(f))
}

proof fn lemma_scan_words_map(s: Seq<char>, f: spec_fn(char) -> char, k: nat)
    requires
        forall|c: char| #[trigger] white_space(f(c)) == white_space(c),
        k <= s.len(),
    ensures
        scan_words(s.map_values(f), k) == (
            map_words(scan_words(s, k).0, f),
            scan_words(s, k).1.map_values(f),
        ),
    decreases k,
{
    let m = s.map_values(f);
    if k == 0 {
        assert(map_words(Seq::<Seq<char>>::empty(), f) =~= Seq::<Seq<char>>::empty());
        assert(Seq::<char>::empty().map_values(f) =~= Seq::<char>::empty());
    } else {
        lemma_scan_words_map(s, f, (k - 1) as nat);
        let (ws, cur) = scan_words(s, (k - 1) as nat);
        let c = s[k - 1];
        assert(m[k - 1] == f(c));
        assert(white_space(f(c)) == white_space(c));
        if white_space(c) {
            assert(Seq::<char>::empty().map_values(f) =~= Seq::<char>::empty());
            if cur.len() > 0 {
                assert(map_words(ws.push(cur), f) =~= map_words(ws, f).push(cur.map_values(f)));
            }
        } else {
            assert(cur.push(c).map_values(f) =~= cur.map_values(f).push(f(c)));
        }
    }
}

/// A character map that keeps whitespace maps each word.
pub proof fn lemma_words_of_map(s: Seq<char>, f: spec_fn(char) -> char)
    requires
        forall|c: char| #[trigger] white_space(f(c)) == white_space(c),
    ensures
        words_of(s.map_values(f)) == map_words(words_of(s), f),
{
    lemma_scan_words_map(s, f, s.len());
    let (ws, cur) = scan_words(s, s.len());
    if cur.len() > 0 {
        assert(map_words(ws.push(cur), f) =~= map_words(ws, f).push(cur.map_values(f)));
    }
}

/// The scan up to `k` only reads the first `k` characters.
proof fn lemma_scan_words_prefix(s: Seq<char>, t: Seq<char>, k: nat)
    requires
        k <= s.len(),
        k <= t.len(),
        forall|i: int| 0 <= i < k ==> s[i] == t[i],
    ensures
        scan_words(s, k) == scan_words(t, k),
    decreases k,
{
    if k > 0 {
        lemma_scan_words_prefix(s, t, (k - 1) as nat);
        assert(s[k - 1] == t[k - 1]);
    }
}

/// A leading whitespace character does not change the scan.
proof fn lemma_scan_words_drop_white(s: Seq<char>, k: nat)
    requires
        s.len() > 0,
        white_space(s[0]),
        k < s.len(),
    ensures
        scan_words(s, k + 1) == scan_words(s.drop_first(), k),
    decreases k,
{
    let d = s.drop_first();
    if k > 0 {
        lemma_scan_words_drop_white(s, (k - 1) as nat);
        assert(s[k as int] == d[k - 1]);
        assert(scan_words(s, k) == scan_words(d, (k - 1) as nat));
    } else {
        assert(scan_words(s, 0) == (Seq::<Seq<char>>::empty(), Seq::<char>::empty()));
        assert(scan_words(d, 0) == (Seq::<Seq<char>>::empty(), Seq::<char>::empty()));
    }
}

proof fn lemma_words_of_trim_front(s: Seq<char>)
    ensures
        words_of(trim_front(s)) == words_of(s),
    decreases s.len(),
{
    if s.len() > 0 && white_space(s[0]) {
        lemma_scan_words_drop_white(s, (s.len() - 1) as nat);
        lemma_words_of_trim_front(s.drop_first());
    }
}

proof fn lemma_words_of_trim_back(s: Seq<char>)
    ensures
        words_of(trim_back(s)) == words_of(s),
    decreases s.len(),
{
    if s.len() > 0 && white_space(s.last()) {
        let d = s.drop_last();
        lemma_scan_words_prefix(s, d, d.len());
        lemma_words_of_trim_back(d);
    }
}

/// Leading and trailing whitespace is no part of any word.
pub proof fn lemma_words_of_trimmed(s: Seq<char>)
    ensures
        words_of(trimmed(s)) == words_of(s),
{
    lemma_words_of_trim_front(s);
    lemma_words_of_trim_back(trim_front(s));
}

} // verus!
