//! Text as sequences of characters: conversions and searches that the rest of
//! the library states its contracts over.

use vstd::prelude::*;
use vstd::string::*;

verus! {

/// `String::push` of the standard library: the character is appended and
/// nothing else changes.
#[verifier::external_body]
pub(crate) fn push_char(s: &mut String, c: char)
    ensures
        final(s)@ == old(s)@.push(c),
{
    s.push(c);
}

/// The characters of a string slice, in order.
pub fn chars_of(s: &str) -> (v: Vec<char>)
    ensures
        v@ == s@,
{
    let mut v: Vec<char> = Vec::new();
    for c in it: s.chars()
        invariant
            v@ == s@.take(it.index() as int),
            it.seq() == s@,
    {
        v.push(c);
    }
    v
}

/// The string made of the given characters, in order.
pub fn string_of(v: &Vec<char>) -> (s: String)
    ensures
        s@ == v@,
{
    let mut s = String::new();
    let mut i: usize = 0;
    while i < v.len()
        invariant
            i <= v.len(),
            s@ == v@.take(i as int),
        decreases v.len() - i,
    {
        push_char(&mut s, v[i]);
        i = i + 1;
        assert(v@.take(i as int) == v@.take(i as int - 1).push(v@[i as int - 1]));
    }
    assert(v@.take(v.len() as int) == v@);
    s
}

/// Whether two string slices hold the same characters.
pub fn str_eq(a: &str, b: &str) -> (r: bool)
    ensures
        r == (a@ == b@),
{
    let x = a.to_owned();
    let y = b.to_owned();
    x == y
}

/// Whether `needle` occurs in `hay` at position `at`.
pub open spec fn occurs_at(hay: Seq<char>, needle: Seq<char>, at: int) -> bool {
    0 <= at && at + needle.len() <= hay.len() && hay.subrange(at, at + needle.len()) == needle
}

/// Whether `needle` occurs somewhere in `hay`.
pub open spec fn is_infix(needle: Seq<char>, hay: Seq<char>) -> bool {
    exists|at: int| occurs_at(hay, needle, at)
}

/// Whether `hay` begins with `prefix`.
pub open spec fn is_prefix(prefix: Seq<char>, hay: Seq<char>) -> bool {
    occurs_at(hay, prefix, 0)
}

/// Whether `needle` occurs in `hay` at position `at`.
pub fn occurs_at_index(hay: &Vec<char>, needle: &Vec<char>, at: usize) -> (r: bool)
    ensures
        r == occurs_at(hay@, needle@, at as int),
{
    if needle.len() > hay.len() || at > hay.len() - needle.len() {
        return false;
    }
    let mut j: usize = 0;
    while j < needle.len()
        invariant
            j <= needle.len(),
            at + needle.len() <= hay.len(),
            forall|k: int| 0 <= k < j ==> hay@[at + k] == needle@[k],
        decreases needle.len() - j,
    {
        if hay[at + j] != needle[j] {
            assert(hay@.subrange(at as int, at + needle.len())[j as int] == hay@[at + j]);
            return false;
        }
        j = j + 1;
    }
    assert(hay@.subrange(at as int, at + needle.len()) =~= needle@);
    true
}

/// Whether one text occurs somewhere in another.
pub fn contains_text(hay: &str, needle: &str) -> (r: bool)
    ensures
        r == is_infix(needle@, hay@),
{
    let h = chars_of(hay);
    let n = chars_of(needle);
    if n.len() > h.len() {
        assert forall|at: int| !occurs_at(h@, n@, at) by {}
        return false;
    }
    let last = h.len() - n.len();
    let mut i: usize = 0;
    while i < last
        invariant
            i <= last,
            last == h.len() - n.len(),
            h@ == hay@,
            n@ == needle@,
            forall|at: int| 0 <= at < i ==> !occurs_at(h@, n@, at),
        decreases last - i,
    {
        if occurs_at_index(&h, &n, i) {
            assert(occurs_at(hay@, needle@, i as int));
            return true;
        }
        i = i + 1;
    }
    let found = occurs_at_index(&h, &n, last);
    proof {
        if found {
            assert(occurs_at(hay@, needle@, last as int));
        } else {
            assert forall|at: int| !occurs_at(h@, n@, at) by {}
        }
    }
    found
}

/// Whether a text begins with another.
pub fn starts_with_text(hay: &str, prefix: &str) -> (r: bool)
    ensures
        r == is_prefix(prefix@, hay@),
{
    let h = chars_of(hay);
    let p = chars_of(prefix);
    occurs_at_index(&h, &p, 0)
}

/// Whether a character has the Unicode property `White_Space`: the tab, the
/// line and page breaks of ASCII, the space, the next-line control, the
/// no-break spaces, the spaces of fixed width, the line and paragraph
/// separators and the ideographic space.
pub open spec fn char_is_whitespace(c: char) -> bool {
    let n = c as u32;
    ||| 0x09 <= n <= 0x0D
    ||| n == 0x20
    ||| n == 0x85
    ||| n == 0xA0
    ||| n == 0x1680
    ||| 0x2000 <= n <= 0x200A
    ||| n == 0x2028
    ||| n == 0x2029
    ||| n == 0x202F
    ||| n == 0x205F
    ||| n == 0x3000
}

/// `char::is_whitespace`: whether the character has the Unicode property
/// `White_Space`.
pub assume_specification[ char::is_whitespace ](c: char) -> (b: bool)
    ensures
        b == char_is_whitespace(c),
;

/// Whether a character belongs to the Unicode category of control
/// characters: the code points below the space, and those from the delete
/// character to the end of the second block of controls.
pub open spec fn char_is_control(c: char) -> bool {
    let n = c as u32;
    n <= 0x1F || 0x7F <= n <= 0x9F
}

/// `char::is_control`: whether the character belongs to the Unicode category
/// of control characters.
pub assume_specification[ char::is_control ](c: char) -> (b: bool)
    ensures
        b == char_is_control(c),
;

/// A class of characters.
#[derive(Debug, Clone, Copy, PartialEq, Eq, Structural)]
pub enum CharClass {
    /// The characters that are whitespace
    Whitespace,
    /// The characters that are not whitespace
    Visible,
    /// The slash
    Slash,
    /// The control characters
    Control,
}

impl CharClass {
    /// Whether the character belongs to the class.
    pub open spec fn has(self, c: char) -> bool {
        match self {
            CharClass::Whitespace => char_is_whitespace(c),
            CharClass::Visible => !char_is_whitespace(c),
            CharClass::Slash => c == '/',
            CharClass::Control => char_is_control(c),
        }
    }

    /// Whether the character belongs to the class.
    pub fn contains(&self, c: char) -> (b: bool)
        ensures
            b == self.has(c),
    {
        match self {
            CharClass::Whitespace => c.is_whitespace(),
            CharClass::Visible => !c.is_whitespace(),
            CharClass::Slash => c == '/',
            CharClass::Control => c.is_control(),
        }
    }
}

/// How many characters of the class a text begins with.
pub open spec fn leading_run(s: Seq<char>, class: CharClass) -> nat
    decreases s.len(),
{
    if s.len() > 0 && class.has(s[0]) {
        1 + leading_run(s.drop_first(), class)
    } else {
        0
    }
}

/// How many characters of the class a text ends with.
pub open spec fn trailing_run(s: Seq<char>, class: CharClass) -> nat
    decreases s.len(),
{
    if s.len() > 0 && class.has(s.last()) {
        1 + trailing_run(s.drop_last(), class)
    } else {
        0
    }
}

/// A text without the whitespace that it begins and ends with.
pub open spec fn trimmed(s: Seq<char>) -> Seq<char> {
    let start = leading_run(s, CharClass::Whitespace) as int;
    if start >= s.len() {
        Seq::empty()
    } else {
        s.subrange(start, s.len() - trailing_run(s, CharClass::Whitespace))
    }
}

/// A run of the class at the start of a text, ended by a character outside
/// the class or by the end of the text, is the whole leading run.
pub proof fn lemma_leading_run_is(s: Seq<char>, class: CharClass, n: int)
    requires
        0 <= n <= s.len(),
        forall|i: int| 0 <= i < n ==> class.has(#[trigger] s[i]),
        n < s.len() ==> !class.has(s[n]),
    ensures
        leading_run(s, class) == n,
    decreases n,
{
    if n > 0 {
        let rest = s.drop_first();
        assert forall|i: int| 0 <= i < n - 1 implies class.has(#[trigger] rest[i]) by {
            assert(rest[i] == s[i + 1]);
        }
        lemma_leading_run_is(rest, class, n - 1);
    }
}

/// A run of the class at the end of a text, preceded by a character outside
/// the class or by the start of the text, is the whole trailing run.
pub proof fn lemma_trailing_run_is(s: Seq<char>, class: CharClass, n: int)
    requires
        0 <= n <= s.len(),
        forall|i: int| s.len() - n <= i < s.len() ==> class.has(#[trigger] s[i]),
        n < s.len() ==> !class.has(s[s.len() - 1 - n]),
    ensures
        trailing_run(s, class) == n,
    decreases n,
{
    if n > 0 {
        let rest = s.drop_last();
        assert forall|i: int| rest.len() - (n - 1) <= i < rest.len() implies class.has(
            #[trigger] rest[i],
        ) by {
            assert(rest[i] == s[i]);
        }
        lemma_trailing_run_is(rest, class, n - 1);
    }
}

/// The length of the run of the class that begins at `from`.
pub fn run_from(v: &Vec<char>, from: usize, class: CharClass) -> (n: usize)
    requires
        from <= v.len(),
    ensures
        n == leading_run(v@.skip(from as int), class),
        from + n <= v.len(),
{
    let len = v.len();
    let mut end: usize = from;
    while end < len && class.contains(v[end])
        invariant
            from <= end <= len,
            len == v.len(),
            forall|i: int| from <= i < end ==> class.has(#[trigger] v@[i]),
        decreases len - end,
    {
        end = end + 1;
    }
    proof {
        let rest = v@.skip(from as int);
        assert forall|i: int| 0 <= i < end - from implies class.has(#[trigger] rest[i]) by {
            assert(rest[i] == v@[from + i]);
        }
        lemma_leading_run_is(rest, class, end - from);
    }
    end - from
}

/// A copy of the characters from `from` up to `to`.
pub fn copy_range(v: &Vec<char>, from: usize, to: usize) -> (r: Vec<char>)
    requires
        from <= to <= v.len(),
    ensures
        r@ == v@.subrange(from as int, to as int),
{
    let mut r: Vec<char> = Vec::new();
    let mut i: usize = from;
    while i < to
        invariant
            from <= i <= to,
            to <= v.len(),
            r@ == v@.subrange(from as int, i as int),
        decreases to - i,
    {
        r.push(v[i]);
        i = i + 1;
        assert(r@ =~= v@.subrange(from as int, i as int));
    }
    assert(r@ =~= v@.subrange(from as int, to as int));
    r
}

/// The characters without the whitespace that they begin and end with.
pub fn trim_chars(v: &Vec<char>) -> (r: Vec<char>)
    ensures
        r@ == trimmed(v@),
{
    let n = v.len();
    let start = run_from(v, 0, CharClass::Whitespace);
    assert(v@.skip(0) =~= v@);
    if start == n {
        return Vec::new();
    }
    let mut end: usize = n;
    while end > 0 && v[end - 1].is_whitespace()
        invariant
            end <= n,
            n == v.len(),
            forall|i: int| end <= i < n ==> char_is_whitespace(#[trigger] v@[i]),
        decreases end,
    {
        end = end - 1;
    }
    proof {
        lemma_trailing_run_is(v@, CharClass::Whitespace, n - end);
        if end < start {
            lemma_leading_run_end(v@, CharClass::Whitespace);
            assert(char_is_whitespace(v@[start as int]));
        }
    }
    copy_range(v, start, end)
}

/// The leading run lies within the text, holds only characters of the class,
/// and ends before a character outside the class or at the end of the text.
pub proof fn lemma_leading_run_end(s: Seq<char>, class: CharClass)
    ensures
        leading_run(s, class) <= s.len(),
        leading_run(s, class) < s.len() ==> !class.has(s[leading_run(s, class) as int]),
        forall|i: int| 0 <= i < leading_run(s, class) ==> class.has(#[trigger] s[i]),
    decreases s.len(),
{
    if s.len() > 0 && class.has(s[0]) {
        let rest = s.drop_first();
        lemma_leading_run_end(rest, class);
        assert forall|i: int| 0 <= i < leading_run(s, class) implies class.has(#[trigger] s[i]) by {
            if i > 0 {
                assert(s[i] == rest[i - 1]);
            }
        }
        if leading_run(s, class) < s.len() {
            assert(s[leading_run(s, class) as int] == rest[leading_run(rest, class) as int]);
        }
    }
}

/// Append the characters of `more` to `v`.
pub fn extend_chars(v: &mut Vec<char>, more: &Vec<char>)
    ensures
        final(v)@ == old(v)@ + more@,
{
    let mut i: usize = 0;
    while i < more.len()
        invariant
            i <= more.len(),
            v@ == old(v)@ + more@.take(i as int),
        decreases more.len() - i,
    {
        v.push(more[i]);
        i = i + 1;
        assert(v@ =~= old(v)@ + more@.take(i as int));
    }
    assert(more@.take(more.len() as int) =~= more@);
}

/// What a character becomes in HTML text: the three characters that HTML
/// gives a meaning to become entities, every other stands for itself.
pub open spec fn escaped_char(c: char) -> Seq<char> {
    if c == '&' {
        "&amp;"@
    } else if c == '<' {
        "&lt;"@
    } else if c == '>' {
        "&gt;"@
    } else {
        seq![c]
    }
}

/// A text as HTML text, character by character.
pub open spec fn html_escaped(s: Seq<char>) -> Seq<char>
    decreases s.len(),
{
    if s.len() == 0 {
        Seq::empty()
    } else {
        html_escaped(s.drop_last()) + escaped_char(s.last())
    }
}

/// `html_escape::encode_text`: the text with `&`, `<` and `>` replaced by
/// their entities and every other character unchanged.
#[verifier::external_body]
pub(crate) fn html_encode_text(text: &str) -> (r: String)
    ensures
        r@ == html_escaped(text@),
{
    html_escape::encode_text(text).into_owned()
}

/// The lowercase form of a text, as `str::to_lowercase` of the standard
/// library gives it.
pub uninterp spec fn lowercase_of(s: Seq<char>) -> Seq<char>;

/// `str::to_lowercase`: the result depends on the text alone.
#[verifier::external_body]
pub(crate) fn to_lowercase(s: &str) -> (r: String)
    ensures
        r@ == lowercase_of(s@),
{
    s.to_lowercase()
}

/// The digit that stands for a number below ten.
pub open spec fn digit_char(d: nat) -> char {
    if d == 0 {
        '0'
    } else if d == 1 {
        '1'
    } else if d == 2 {
        '2'
    } else if d == 3 {
        '3'
    } else if d == 4 {
        '4'
    } else if d == 5 {
        '5'
    } else if d == 6 {
        '6'
    } else if d == 7 {
        '7'
    } else if d == 8 {
        '8'
    } else {
        '9'
    }
}

/// A number in decimal notation.
pub open spec fn decimal(n: nat) -> Seq<char>
    decreases n,
{
    if n < 10 {
        seq![digit_char(n)]
    } else {
        decimal(n / 10).push(digit_char(n % 10))
    }
}

/// The digit that stands for a number below ten.
pub fn digit_of(d: usize) -> (c: char)
    requires
        d < 10,
    ensures
        c == digit_char(d as nat),
{
    if d == 0 {
        '0'
    } else if d == 1 {
        '1'
    } else if d == 2 {
        '2'
    } else if d == 3 {
        '3'
    } else if d == 4 {
        '4'
    } else if d == 5 {
        '5'
    } else if d == 6 {
        '6'
    } else if d == 7 {
        '7'
    } else if d == 8 {
        '8'
    } else {
        '9'
    }
}

/// A number in decimal notation.
pub fn decimal_chars(n: usize) -> (r: Vec<char>)
    ensures
        r@ == decimal(n as nat),
    decreases n,
{
    if n < 10 {
        let mut r: Vec<char> = Vec::new();
        r.push(digit_of(n));
        assert(r@ =~= seq![digit_char(n as nat)]);
        r
    } else {
        let mut r = decimal_chars(n / 10);
        r.push(digit_of(n % 10));
        r
    }
}

} // verus!
