//! Character-level helpers on strings, stated over `Seq<char>` views.

use vstd::prelude::*;

verus! {

/// The characters of `s`, in order.
pub fn chars_of(s: &str) -> (v: Vec<char>)
    ensures
        v@ == s@,
{
    let mut v: Vec<char> = Vec::new();
    for c in it: s.chars()
        invariant
            it.seq() == s@,
            v@ == it.seq().take(it.index() as int),
    {
        v.push(c);
    }
    v
}

/// A string holding exactly the characters of `v`.
///
/// Trusted: collects `v.iter()` into a `String` (std's `FromIterator<&char>`),
/// which appends the characters in order.
#[verifier::external_body]
pub(crate) fn string_from_chars(v: &[char]) -> (s: String)
    ensures
        s@ == v@,
{
    v.iter().collect()
}

/// Whether two strings hold the same characters.
pub fn str_eq(a: &str, b: &str) -> (r: bool)
    ensures
        r == (a@ == b@),
{
    let x = chars_of(a);
    let y = chars_of(b);
    if x.len() != y.len() {
        return false;
    }
    for i in 0..x.len()
        invariant
            x@ == a@,
            y@ == b@,
            x@.len() == y@.len(),
            forall|j: int| 0 <= j < i ==> x@[j] == y@[j],
    {
        if x[i] != y[i] {
            return false;
        }
    }
    assert(x@ =~= y@);
    true
}

/// The concatenation of two strings.
pub fn concat(a: &str, b: &str) -> (s: String)
    ensures
        s@ == a@ + b@,
{
    let mut s = a.to_owned();
    s.append(b);
    s
}

/// `needle` occurs in `hay` starting at position `at`.
pub open spec fn occurs_at(hay: Seq<char>, needle: Seq<char>, at: int) -> bool {
    0 <= at && at + needle.len() <= hay.len() && hay.subrange(at, at + needle.len()) == needle
}

/// `needle` occurs somewhere in `hay`.
pub open spec fn contains_seq(hay: Seq<char>, needle: Seq<char>) -> bool {
    exists|at: int| occurs_at(hay, needle, at)
}

fn matches_at(hay: &Vec<char>, needle: &Vec<char>, at: usize) -> (r: bool)
    requires
        at + needle@.len() <= hay@.len(),
    ensures
        r == occurs_at(hay@, needle@, at as int),
{
    let hay_len = hay.len();
    let mut k: usize = 0;
    while k < needle.len()
        invariant
            hay_len == hay@.len(),
            at + needle@.len() <= hay@.len(),
            k <= needle@.len(),
            forall|j: int| 0 <= j < k ==> hay@[at + j] == needle@[j],
        decreases needle@.len() - k,
    {
        if hay[at + k] != needle[k] {
            assert(hay@.subrange(at as int, at + needle@.len())[k as int] != needle@[k as int]);
            return false;
        }
        k += 1;
    }
    assert(hay@.subrange(at as int, at + needle@.len()) =~= needle@);
    true
}

/// Whether `needle` occurs in `hay` (as `str::contains` with a string
/// pattern).
pub fn contains(hay: &str, needle: &str) -> (r: bool)
    ensures
        r == contains_seq(hay@, needle@),
{
    let h = chars_of(hay);
    let n = chars_of(needle);
    if n.len() == 0 {
        assert(occurs_at(hay@, needle@, 0)) by {
            assert(hay@.subrange(0, 0) =~= needle@);
        }
        return true;
    }
    let mut at: usize = 0;
    while at < h.len()
        invariant
            h@ == hay@,
            n@ == needle@,
            n@.len() > 0,
            at <= h@.len(),
            forall|j: int| 0 <= j < at ==> !occurs_at(hay@, needle@, j),
        decreases h@.len() - at,
    {
        if h.len() - at >= n.len() && matches_at(&h, &n, at) {
            return true;
        }
        at += 1;
    }
    assert forall|j: int| !occurs_at(hay@, needle@, j) by {
        if 0 <= j && j + needle@.len() <= hay@.len() {
            assert(j < at);
        }
    }
    false
}

/// `s` with every `from` replaced by `to`.
pub open spec fn replace_char_spec(s: Seq<char>, from: char, to: char) -> Seq<char> {
    s.map_values(|c: char| if c == from { to } else { c })
}

/// `s` with every occurrence of the character `from` replaced by `to`.
pub fn replace_char(s: &str, from: char, to: char) -> (r: String)
    ensures
        r@ == replace_char_spec(s@, from, to),
{
    let v = chars_of(s);
    let mut out: Vec<char> = Vec::new();
    for i in 0..v.len()
        invariant
            v@ == s@,
            out@ == replace_char_spec(s@, from, to).take(i as int),
    {
        let c = v[i];
        out.push(if c == from { to } else { c });
        assert(out@ =~= replace_char_spec(s@, from, to).take(i + 1));
    }
    assert(out@ =~= replace_char_spec(s@, from, to));
    string_from_chars(out.as_slice())
}

/// The full Unicode lowercase mapping that `str::to_lowercase` applies.
pub uninterp spec fn unicode_lowercase(s: Seq<char>) -> Seq<char>;

/// `s` in lowercase.
///
/// Trusted: calls std's `str::to_lowercase`, whose result is determined by
/// its argument (Unicode case tables compiled into std); nothing more of it is
/// stated here.
#[verifier::external_body]
pub(crate) fn to_lowercase(s: &str) -> (r: String)
    ensures
        r@ == unicode_lowercase(s@),
{
    s.to_lowercase()
}

/// ASCII lowercase of one character; other characters are unchanged.
pub open spec fn ascii_lower(c: char) -> char {
    if 'A' <= c && c <= 'Z' {
        ((c as u32) + 32) as char
    } else {
        c
    }
}

/// ASCII lowercase of one character, as `char::to_ascii_lowercase`.
pub fn to_ascii_lower(c: char) -> (r: char)
    ensures
        r == ascii_lower(c),
{
    if 'A' <= c && c <= 'Z' {
        let code: u32 = c as u32;
        assert(65 <= code <= 90);
        char_from_ascii_code(code + 32)
    } else {
        c
    }
}

fn char_from_ascii_code(code: u32) -> (c: char)
    requires
        code < 128,
    ensures
        c == code as char,
{
    (code as u8) as char
}

/// The ASCII digit for `d` (`0 <= d < 10`).
pub open spec fn digit_char(d: int) -> char {
    (48 + d) as char
}

/// The decimal digits of `n`, most significant first, without leading zeros.
pub open spec fn decimal_digits(n: nat) -> Seq<char>
    decreases n,
{
    if n < 10 {
        seq![digit_char(n as int)]
    } else {
        decimal_digits(n / 10).push(digit_char((n % 10) as int))
    }
}

/// `digits` preceded by enough zeros to be at least `width` long.
pub open spec fn zero_padded(digits: Seq<char>, width: int) -> Seq<char> {
    if digits.len() >= width {
        digits
    } else {
        Seq::new((width - digits.len()) as nat, |i: int| '0') + digits
    }
}

/// `n` formatted as Rust's `format!("{:0w$}", n)` does for an integer: a
/// minus sign for negative numbers, then the digits of the magnitude padded
/// with zeros so that the whole is at least `width` characters long.
pub open spec fn padded_decimal(n: int, width: int) -> Seq<char> {
    if n < 0 {
        seq!['-'] + zero_padded(decimal_digits((-n) as nat), width - 1)
    } else {
        zero_padded(decimal_digits(n as nat), width)
    }
}

/// `n` formatted as `n.to_string()` does.
pub open spec fn decimal(n: int) -> Seq<char> {
    padded_decimal(n, 0)
}

fn digit_of(d: u64) -> (c: char)
    requires
        d < 10,
    ensures
        c == digit_char(d as int),
{
    char_from_ascii_code(48 + d as u32)
}

fn magnitude_digits(m: u64) -> (v: Vec<char>)
    ensures
        v@ == decimal_digits(m as nat),
        v@.len() >= 1,
    decreases m,
{
    if m < 10 {
        let mut v: Vec<char> = Vec::new();
        v.push(digit_of(m));
        v
    } else {
        let mut v = magnitude_digits(m / 10);
        v.push(digit_of(m % 10));
        v
    }
}

/// `n` in decimal, padded with zeros after any sign to at least `width`
/// characters (`format!("{:0width$}", n)`).
pub fn format_padded(n: i64, width: usize) -> (s: String)
    ensures
        s@ == padded_decimal(n as int, width as int),
{
    let magnitude: u64 = if n >= 0 {
        n as u64
    } else {
        ((-(n + 1)) as u64) + 1
    };
    let mut digits = magnitude_digits(magnitude);
    let ghost mag_digits = digits@;
    let inner_width: usize = if n < 0 {
        if width > 0 { width - 1 } else { 0 }
    } else {
        width
    };
    let mut out: Vec<char> = Vec::new();
    if n < 0 {
        out.push('-');
    }
    let ghost sign = out@;
    let mut k: usize = digits.len();
    while k < inner_width
        invariant
            mag_digits.len() <= k,
            k <= inner_width || k == mag_digits.len(),
            out@ == sign + Seq::new((k - mag_digits.len()) as nat, |i: int| '0'),
        decreases inner_width - k,
    {
        out.push('0');
        k += 1;
        assert(out@ =~= sign + Seq::new((k - mag_digits.len()) as nat, |i: int| '0'));
    }
    out.append(&mut digits);
    proof {
        assert(n < 0 ==> (-n) as nat == magnitude as nat);
        let padded = zero_padded(mag_digits, inner_width as int);
        if mag_digits.len() >= inner_width {
            assert(k == mag_digits.len());
            assert(Seq::new((k - mag_digits.len()) as nat, |i: int| '0') =~= Seq::<char>::empty());
        }
        assert(out@ =~= sign + padded);
        if n < 0 {
            assert(sign =~= seq!['-']);
        } else {
            assert(sign =~= Seq::<char>::empty());
        }
    }
    string_from_chars(out.as_slice())
}

/// `n` in decimal (`n.to_string()`).
pub fn format_decimal(n: i64) -> (s: String)
    ensures
        s@ == decimal(n as int),
{
    format_padded(n, 0)
}

/// Path separators on Windows.
pub open spec fn is_separator(c: char) -> bool {
    c == '/' || c == '\\'
}

/// Adds a finished component to `done`, dropping empty and `.` components.
pub open spec fn push_component(done: Seq<Seq<char>>, current: Seq<char>) -> Seq<Seq<char>> {
    if current.len() == 0 || current == seq!['.'] {
        done
    } else {
        done.push(current)
    }
}

/// Splits `s` at separators, continuing from finished components `done` and
/// the component `current` that is being read.
pub open spec fn components_from(s: Seq<char>, done: Seq<Seq<char>>, current: Seq<char>) -> Seq<Seq<char>>
    decreases s.len(),
{
    if s.len() == 0 {
        push_component(done, current)
    } else if is_separator(s[0]) {
        components_from(s.drop_first(), push_component(done, current), seq![])
    } else {
        components_from(s.drop_first(), done, current.push(s[0]))
    }
}

/// The non-empty, non-`.` components of a Windows path, in order.
pub open spec fn path_components(s: Seq<char>) -> Seq<Seq<char>> {
    components_from(s, seq![], seq![])
}

/// A component that starts with a drive letter and a colon, such as `C:`.
pub open spec fn starts_with_drive(c: Seq<char>) -> bool {
    c.len() >= 2 && c[1] == ':' && (('A' <= c[0] && c[0] <= 'Z') || ('a' <= c[0] && c[0] <= 'z'))
}

/// A path that starts with two separators (`\\server\share\...`), whose first
/// two components form its prefix.
pub open spec fn is_unc(s: Seq<char>) -> bool {
    s.len() >= 2 && is_separator(s[0]) && is_separator(s[1])
}

/// The final component of a Windows path, as `Path::file_name` gives it on
/// Windows: `None` for a path that is only a prefix or a root, or whose last
/// component is `..`; a drive prefix (`C:`) at the very start of the path is
/// not part of the name, and what follows it directly is no name when it is
/// `.` or `..`.
pub open spec fn windows_file_name(s: Seq<char>) -> Option<Seq<char>> {
    let cs = path_components(s);
    let prefix_len: int = if is_unc(s) { 2 } else { 0 };
    if cs.len() <= prefix_len {
        None
    } else if cs.last() == seq!['.', '.'] {
        None
    } else if cs.len() == 1 && starts_with_drive(cs.last()) && !is_separator(s[0]) {
        let rest = cs.last().skip(2);
        if rest.len() == 0 || rest == seq!['.'] || rest == seq!['.', '.'] { None } else { Some(rest) }
    } else {
        Some(cs.last())
    }
}

proof fn lemma_components_step(s: Seq<char>, i: int, done: Seq<Seq<char>>, current: Seq<char>)
    requires
        0 <= i < s.len(),
    ensures
        components_from(s.skip(i), done, current) == (if is_separator(s[i]) {
            components_from(s.skip(i + 1), push_component(done, current), seq![])
        } else {
            components_from(s.skip(i + 1), done, current.push(s[i]))
        }),
{
    assert(s.skip(i).drop_first() =~= s.skip(i + 1));
}

/// The last component of a Windows path (see `windows_file_name`).
pub fn windows_path_file_name(path: &str) -> (name: Option<String>)
    ensures
        match name {
            Some(n) => windows_file_name(path@) == Some(n@),
            None => windows_file_name(path@).is_none(),
        },
{
    let v = chars_of(path);
    let mut count: usize = 0;
    let mut last: Vec<char> = Vec::new();
    let mut current: Vec<char> = Vec::new();
    let ghost mut done: Seq<Seq<char>> = seq![];
    assert(path@.skip(0) =~= path@);
    for i in 0..v.len()
        invariant
            v@ == path@,
            components_from(path@, seq![], seq![]) == components_from(path@.skip(i as int), done, current@),
            count == if done.len() < 3 { done.len() } else { 3 },
            count > 0 ==> last@ == done.last(),
    {
        proof {
            lemma_components_step(path@, i as int, done, current@);
        }
        let c = v[i];
        if c == '/' || c == '\\' {
            let dot = current.len() == 1 && current[0] == '.';
            if current.len() > 0 && !dot {
                proof {
                    assert(current@ != seq!['.']) by {
                        if current@ == seq!['.'] {
                            assert(current@.len() == 1 && current@[0] == '.');
                        }
                    }
                    done = done.push(current@);
                }
                last = current;
                if count < 3 {
                    count = count + 1;
                }
            } else {
                proof {
                    if current@.len() == 1 {
                        assert(current@ =~= seq!['.']);
                    }
                }
            }
            current = Vec::new();
        } else {
            current.push(c);
        }
    }
    proof {
        assert(path@.skip(v@.len() as int) =~= Seq::<char>::empty());
    }
    let dot = current.len() == 1 && current[0] == '.';
    if current.len() > 0 && !dot {
        proof {
            assert(current@ != seq!['.']) by {
                if current@ == seq!['.'] {
                    assert(current@.len() == 1 && current@[0] == '.');
                }
            }
            done = done.push(current@);
        }
        last = current;
        if count < 3 {
                    count = count + 1;
                }
    } else {
        proof {
            if current@.len() == 1 {
                assert(current@ =~= seq!['.']);
            }
        }
    }
    assert(done == path_components(path@));
    let unc = v.len() >= 2 && (v[0] == '/' || v[0] == '\\') && (v[1] == '/' || v[1] == '\\');
    let prefix_len: usize = if unc { 2 } else { 0 };
    if count <= prefix_len {
        return None;
    }
    if last.len() == 2 && last[0] == '.' && last[1] == '.' {
        assert(last@ =~= seq!['.', '.']);
        return None;
    }
    assert(last@ != seq!['.', '.']) by {
        if last@ == seq!['.', '.'] {
            assert(last@.len() == 2 && last@[0] == '.' && last@[1] == '.');
        }
    }
    let drive = last.len() >= 2 && last[1] == ':' && (('A' <= last[0] && last[0] <= 'Z') || ('a'
        <= last[0] && last[0] <= 'z'));
    let rooted = v[0] == '/' || v[0] == '\\';
    if count == 1 && drive && !rooted {
        let dots = (last.len() == 3 && last[2] == '.') || (last.len() == 4 && last[2] == '.' && last[3] == '.');
        if last.len() > 2 && !dots {
            let mut rest: Vec<char> = Vec::new();
            for j in 2..last.len()
                invariant
                    2 <= last@.len(),
                    rest@ == last@.subrange(2, j as int),
            {
                rest.push(last[j]);
                assert(rest@ =~= last@.subrange(2, j + 1));
            }
            assert(rest@ =~= last@.skip(2));
            assert(rest@ != seq!['.'] && rest@ != seq!['.', '.']) by {
                if rest@ == seq!['.'] {
                    assert(rest@.len() == 1 && rest@[0] == '.');
                }
                if rest@ == seq!['.', '.'] {
                    assert(rest@.len() == 2 && rest@[0] == '.' && rest@[1] == '.');
                }
            }
            return Some(string_from_chars(rest.as_slice()));
        }
        proof {
            if last@.len() == 3 {
                assert(last@.skip(2) =~= seq!['.']);
            }
            if last@.len() == 4 {
                assert(last@.skip(2) =~= seq!['.', '.']);
            }
        }
        return None;
    }
    Some(string_from_chars(last.as_slice()))
}

} // verus!
