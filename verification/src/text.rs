//! Text operations on sequences of characters.
//!
//! A `str` or a `String` is modelled by its view, the sequence of its characters.
use vstd::prelude::*;
use vstd::string::*;

verus! {

broadcast use vstd::string::group_string_axioms;

/// `String::push` appends one character.
pub assume_specification[ String::push ](s: &mut String, c: char)
    ensures
        final(s)@ == old(s)@.push(c),
;

/// `String::push_str` appends a whole text.
pub assume_specification[ String::push_str ](s: &mut String, tail: &str)
    ensures
        final(s)@ == old(s)@ + tail@,
;

/// The characters with the Unicode `White_Space` property.
pub open spec fn is_white(c: char) -> bool {
    ||| 0x9 <= c as u32 <= 0xD
    ||| c as u32 == 0x20
    ||| c as u32 == 0x85
    ||| c as u32 == 0xA0
    ||| c as u32 == 0x1680
    ||| 0x2000 <= c as u32 <= 0x200A
    ||| c as u32 == 0x2028
    ||| c as u32 == 0x2029
    ||| c as u32 == 0x202F
    ||| c as u32 == 0x205F
    ||| c as u32 == 0x3000
}

/// The text without its leading white space.
pub open spec fn trimmed_start(s: Seq<char>) -> Seq<char>
    decreases s.len(),
{
    if s.len() > 0 && is_white(s[0]) {
        trimmed_start(s.drop_first())
    } else {
        s
    }
}

/// The text without its trailing white space.
pub open spec fn trimmed_end(s: Seq<char>) -> Seq<char>
    decreases s.len(),
{
    if s.len() > 0 && is_white(s.last()) {
        trimmed_end(s.drop_last())
    } else {
        s
    }
}

/// The text without leading and trailing white space.
pub open spec fn trimmed(s: Seq<char>) -> Seq<char> {
    trimmed_end(trimmed_start(s))
}

/// How many bytes the text takes in UTF-8.
pub open spec fn byte_len(s: Seq<char>) -> nat {
    vstd::utf8::encode_utf8(s).len()
}

/// How many bytes a character takes in UTF-8.
pub open spec fn char_bytes(c: char) -> nat {
    if (c as u32) < 0x80 {
        1
    } else if (c as u32) < 0x800 {
        2
    } else if (c as u32) < 0x10000 {
        3
    } else {
        4
    }
}

/// The bytes of a text are those of its characters.
pub proof fn lemma_byte_len_last(s: Seq<char>)
    requires
        s.len() > 0,
    ensures
        byte_len(s) == byte_len(s.drop_last()) + char_bytes(s.last()),
    decreases s.len(),
{
    vstd::utf8::char_is_scalar(s[0]);
    assert(vstd::utf8::encode_scalar(s[0] as u32).len() == char_bytes(s[0]));
    if s.len() > 1 {
        lemma_byte_len_last(s.drop_first());
        assert(s.drop_first().drop_last() =~= s.drop_last().drop_first());
        assert(s.drop_last()[0] == s[0]);
    } else {
        assert(vstd::utf8::encode_utf8(s.drop_first()).len() == 0);
        assert(vstd::utf8::encode_utf8(s.drop_last()).len() == 0);
    }
}

/// Whether nothing is left of the text once it is trimmed.
pub open spec fn is_blank(s: Seq<char>) -> bool {
    trimmed(s).len() == 0
}

/// Whether `pattern` stands in `s` at position `at`.
pub open spec fn occurs_at(s: Seq<char>, pattern: Seq<char>, at: int) -> bool {
    &&& 0 <= at
    &&& at + pattern.len() <= s.len()
    &&& s.subrange(at, at + pattern.len()) == pattern
}

/// Whether `pattern` stands anywhere in `s`.
pub open spec fn contains(s: Seq<char>, pattern: Seq<char>) -> bool {
    exists|at: int| #[trigger] occurs_at(s, pattern, at)
}

/// The first position of `pattern` in `s` at or after `from`.
pub open spec fn find_from(s: Seq<char>, pattern: Seq<char>, from: int) -> Option<int>
    decreases s.len() + 1 - from,
{
    if from < 0 || from + pattern.len() > s.len() {
        None
    } else if occurs_at(s, pattern, from) {
        Some(from)
    } else {
        find_from(s, pattern, from + 1)
    }
}

/// The last position of `pattern` in `s` at or before `from`.
pub open spec fn find_back(s: Seq<char>, pattern: Seq<char>, from: int) -> Option<int>
    decreases from + 1,
{
    if from < 0 {
        None
    } else if occurs_at(s, pattern, from) {
        Some(from)
    } else {
        find_back(s, pattern, from - 1)
    }
}

/// Every occurrence of the character `c` replaced by the text `by`.
pub open spec fn replaced(s: Seq<char>, c: char, by: Seq<char>) -> Seq<char>
    decreases s.len(),
{
    if s.len() == 0 {
        s
    } else {
        replaced(s.drop_last(), c, by) + (if s.last() == c {
            by
        } else {
            seq![s.last()]
        })
    }
}

/// The pieces of the text between the separators; always at least one.
pub open spec fn pieces(s: Seq<char>, separator: char) -> Seq<Seq<char>>
    decreases s.len(),
{
    if s.len() == 0 {
        seq![Seq::empty()]
    } else {
        let before = pieces(s.drop_last(), separator);
        if s.last() == separator {
            before.push(Seq::empty())
        } else {
            before.drop_last().push(before.last().push(s.last()))
        }
    }
}

/// A line without the carriage return that ended it.
pub open spec fn without_carriage_return(line: Seq<char>) -> Seq<char> {
    if line.len() > 0 && line.last() == '\r' {
        line.drop_last()
    } else {
        line
    }
}

/// The lines of the text: each ended by a line feed or by a carriage return and a line
/// feed, the last one with or without an end.
pub open spec fn lines_of(s: Seq<char>) -> Seq<Seq<char>> {
    let all = pieces(s, '\n');
    let ended = all.drop_last().map_values(|line: Seq<char>| without_carriage_return(line));
    if all.last().len() == 0 {
        ended
    } else {
        ended.push(all.last())
    }
}

/// The maximal runs of characters that are not white space.
pub open spec fn words(s: Seq<char>) -> Seq<Seq<char>>
    decreases s.len(),
{
    if s.len() == 0 {
        Seq::empty()
    } else {
        let before = words(s.drop_last());
        if is_white(s.last()) {
            before
        } else if s.len() > 1 && !is_white(s[s.len() - 2]) {
            before.drop_last().push(before.last().push(s.last()))
        } else {
            before.push(seq![s.last()])
        }
    }
}

/// The parts one after the other, with the separator between two of them.
pub open spec fn joined(parts: Seq<Seq<char>>, separator: Seq<char>) -> Seq<char>
    decreases parts.len(),
{
    if parts.len() == 0 {
        Seq::empty()
    } else if parts.len() == 1 {
        parts[0]
    } else {
        joined(parts.drop_last(), separator) + separator + parts.last()
    }
}

/// The decimal digit for a number below ten.
pub open spec fn digit(n: nat) -> char {
    (0x30 + n % 10) as char
}

/// A natural number in decimal notation.
pub open spec fn decimal(n: nat) -> Seq<char>
    decreases n,
{
    if n < 10 {
        seq![digit(n)]
    } else {
        decimal(n / 10).push(digit(n))
    }
}

/// An integer in decimal notation, with a minus sign where it is negative.
pub open spec fn signed_decimal(n: int) -> Seq<char> {
    if n < 0 {
        seq!['-'] + decimal((-n) as nat)
    } else {
        decimal(n as nat)
    }
}

/// The lower-case letter for an ASCII upper-case letter; any other character as it is.
pub open spec fn ascii_lower(c: char) -> char {
    if 'A' <= c <= 'Z' {
        (c as u32 + 32) as char
    } else {
        c
    }
}

/// The text with every ASCII upper-case letter in lower case.
pub open spec fn ascii_lowercase(s: Seq<char>) -> Seq<char> {
    s.map_values(|c: char| ascii_lower(c))
}

/// Lexicographic order by code point, strictly smaller.
pub open spec fn text_before(a: Seq<char>, b: Seq<char>) -> bool
    decreases a.len(),
{
    if b.len() == 0 {
        false
    } else if a.len() == 0 {
        true
    } else if a[0] == b[0] {
        text_before(a.drop_first(), b.drop_first())
    } else {
        a[0] < b[0]
    }
}

/// The views of the texts in a list.
pub open spec fn views(list: Seq<String>) -> Seq<Seq<char>> {
    list.map_values(|s: String| s@)
}

/// The view of a text that may be absent.
pub open spec fn opt_view(text: Option<String>) -> Option<Seq<char>> {
    match text {
        Some(s) => Some(s@),
        None => None,
    }
}

/// The view of a borrowed text that may be absent.
pub open spec fn opt_str_view(text: Option<&str>) -> Option<Seq<char>> {
    match text {
        Some(s) => Some(s@),
        None => None,
    }
}

/// The characters of a text.
pub fn to_chars(s: &str) -> (res: Vec<char>)
    ensures
        res@ == s@,
{
    let mut res: Vec<char> = Vec::new();
    for c in it: s.chars()
        invariant
            res@ == s@.take(it.index() as int),
            it.seq() == s@,
    {
        proof {
            assert(s@.take(it.index() as int).push(c) =~= s@.take(it.index() as int + 1));
        }
        res.push(c);
    }
    proof {
        assert(s@.take(s@.len() as int) =~= s@);
    }
    res
}

/// The text made of the characters from `from` up to `to`.
pub fn string_between(chars: &Vec<char>, from: usize, to: usize) -> (res: String)
    requires
        from <= to <= chars@.len(),
    ensures
        res@ == chars@.subrange(from as int, to as int),
{
    let mut res = String::new();
    let mut i: usize = from;
    proof {
        assert(chars@.subrange(from as int, from as int) =~= Seq::empty());
    }
    while i < to
        invariant
            from <= i <= to <= chars@.len(),
            res@ == chars@.subrange(from as int, i as int),
        decreases to - i,
    {
        res.push(chars[i]);
        proof {
            assert(chars@.subrange(from as int, i as int).push(chars@[i as int])
                =~= chars@.subrange(from as int, i + 1));
        }
        i += 1;
    }
    res
}

/// The text made of all the characters.
pub fn string_of(chars: &Vec<char>) -> (res: String)
    ensures
        res@ == chars@,
{
    proof {
        assert(chars@.subrange(0, chars@.len() as int) =~= chars@);
    }
    string_between(chars, 0, chars.len())
}

/// Whether two texts are equal.
pub fn same_text(a: &str, b: &str) -> (res: bool)
    ensures
        res == (a@ == b@),
{
    let left = to_chars(a);
    let right = to_chars(b);
    if left.len() != right.len() {
        return false;
    }
    let mut i: usize = 0;
    while i < left.len()
        invariant
            i <= left@.len() == right@.len(),
            left@.take(i as int) =~= right@.take(i as int),
            left@ == a@,
            right@ == b@,
        decreases left@.len() - i,
    {
        if left[i] != right[i] {
            proof {
                assert(left@[i as int] != right@[i as int]);
            }
            return false;
        }
        proof {
            assert(left@.take(i + 1) =~= left@.take(i as int).push(left@[i as int]));
            assert(right@.take(i + 1) =~= right@.take(i as int).push(right@[i as int]));
        }
        i += 1;
    }
    proof {
        assert(left@.take(i as int) =~= left@);
        assert(right@.take(i as int) =~= right@);
    }
    true
}

/// Whether two texts that may be absent are equal.
pub fn same_opt_text(a: Option<&str>, b: Option<&str>) -> (res: bool)
    ensures
        res == (opt_str_view(a) == opt_str_view(b)),
{
    match (a, b) {
        (None, None) => true,
        (Some(a), Some(b)) => same_text(a, b),
        (None, Some(_)) => false,
        (Some(_), None) => false,
    }
}

/// Whether a character is white space.
pub fn is_white_space(c: char) -> (res: bool)
    ensures
        res == is_white(c),
{
    let n: u32 = c as u32;
    (0x9 <= n && n <= 0xD) || n == 0x20 || n == 0x85 || n == 0xA0 || n == 0x1680 || (0x2000 <= n
        && n <= 0x200A) || n == 0x2028 || n == 0x2029 || n == 0x202F || n == 0x205F || n == 0x3000
}

/// The positions between which the trimmed part of the characters stands.
fn trim_bounds(chars: &Vec<char>) -> (res: (usize, usize))
    ensures
        res.0 <= res.1 <= chars@.len(),
        chars@.subrange(res.0 as int, res.1 as int) == trimmed(chars@),
        trimmed_start(chars@) == chars@.skip(res.0 as int),
        trimmed_end(chars@.skip(res.0 as int)) == chars@.subrange(res.0 as int, res.1 as int),
{
    let mut from: usize = 0;
    proof {
        assert(chars@.skip(0) =~= chars@);
    }
    while from < chars.len() && is_white_space(chars[from])
        invariant
            from <= chars@.len(),
            trimmed_start(chars@) == trimmed_start(chars@.skip(from as int)),
        decreases chars@.len() - from,
    {
        proof {
            assert(chars@.skip(from as int).drop_first() =~= chars@.skip(from + 1));
        }
        from += 1;
    }
    let mut to: usize = chars.len();
    proof {
        assert(chars@.subrange(from as int, to as int) =~= chars@.skip(from as int));
    }
    while to > from && is_white_space(chars[to - 1])
        invariant
            from <= to <= chars@.len(),
            trimmed_end(chars@.skip(from as int)) == trimmed_end(
                chars@.subrange(from as int, to as int),
            ),
        decreases to,
    {
        proof {
            let now = chars@.subrange(from as int, to as int);
            assert(now.drop_last() =~= chars@.subrange(from as int, to - 1));
            assert(now.last() == chars@[to - 1]);
        }
        to -= 1;
    }
    (from, to)
}

/// The text without leading and trailing white space.
pub fn trim(s: &str) -> (res: &str)
    ensures
        res@ == trimmed(s@),
{
    let chars = to_chars(s);
    let (from, to) = trim_bounds(&chars);
    s.substring_char(from, to)
}

/// The text without leading white space.
pub fn trim_start(s: &str) -> (res: &str)
    ensures
        res@ == trimmed_start(s@),
{
    let chars = to_chars(s);
    let (from, _) = trim_bounds(&chars);
    proof {
        assert(chars@.skip(from as int) =~= chars@.subrange(from as int, chars@.len() as int));
    }
    s.substring_char(from, chars.len())
}

/// Whether `pattern` stands at position `at` of the characters.
pub fn stands_at(chars: &Vec<char>, pattern: &Vec<char>, at: usize) -> (res: bool)
    ensures
        res == occurs_at(chars@, pattern@, at as int),
{
    if at > chars.len() || pattern.len() > chars.len() - at {
        return false;
    }
    let ghost window = chars@.subrange(at as int, at + pattern@.len());
    let mut i: usize = 0;
    while i < pattern.len()
        invariant
            i <= pattern@.len(),
            at + pattern.len() <= chars.len(),
            window == chars@.subrange(at as int, at + pattern@.len()),
            window.take(i as int) =~= pattern@.take(i as int),
        decreases pattern@.len() - i,
    {
        proof {
            assert(window[i as int] == chars@[at + i]);
        }
        if chars[at + i] != pattern[i] {
            return false;
        }
        proof {
            assert(window.take(i + 1) =~= window.take(i as int).push(window[i as int]));
            assert(pattern@.take(i + 1) =~= pattern@.take(i as int).push(pattern@[i as int]));
        }
        i += 1;
    }
    proof {
        assert(window.take(i as int) =~= window);
        assert(pattern@.take(i as int) =~= pattern@);
    }
    true
}

/// Whether the text begins with `prefix`.
pub fn starts_with(s: &str, prefix: &str) -> (res: bool)
    ensures
        res == occurs_at(s@, prefix@, 0),
{
    stands_at(&to_chars(s), &to_chars(prefix), 0)
}

/// Whether the text ends with `suffix`.
pub fn ends_with(s: &str, suffix: &str) -> (res: bool)
    ensures
        res == occurs_at(s@, suffix@, s@.len() - suffix@.len()),
{
    let chars = to_chars(s);
    let tail = to_chars(suffix);
    if tail.len() > chars.len() {
        return false;
    }
    stands_at(&chars, &tail, chars.len() - tail.len())
}

/// The rest of the text behind `prefix`, where it begins with it.
pub fn strip_prefix<'a>(s: &'a str, prefix: &str) -> (res: Option<&'a str>)
    ensures
        match res {
            Some(rest) => occurs_at(s@, prefix@, 0) && rest@ == s@.skip(prefix@.len() as int),
            None => !occurs_at(s@, prefix@, 0),
        },
{
    let chars = to_chars(s);
    let head = to_chars(prefix);
    if stands_at(&chars, &head, 0) {
        proof {
            assert(s@.skip(prefix@.len() as int) =~= s@.subrange(
                prefix@.len() as int,
                s@.len() as int,
            ));
        }
        Some(s.substring_char(head.len(), chars.len()))
    } else {
        None
    }
}

/// A found position is the first one, and none is missed.
pub proof fn lemma_find_from(s: Seq<char>, pattern: Seq<char>, from: int)
    requires
        0 <= from,
    ensures
        match find_from(s, pattern, from) {
            Some(at) => from <= at && occurs_at(s, pattern, at) && forall|i: int|
                from <= i < at ==> !#[trigger] occurs_at(s, pattern, i),
            None => forall|i: int| from <= i ==> !#[trigger] occurs_at(s, pattern, i),
        },
    decreases s.len() + 1 - from,
{
    if from + pattern.len() <= s.len() && !occurs_at(s, pattern, from) {
        lemma_find_from(s, pattern, from + 1);
    }
}

/// The first position of `pattern` at or after `from`.
pub fn position_from(chars: &Vec<char>, pattern: &Vec<char>, from: usize) -> (res: Option<usize>)
    ensures
        match res {
            Some(at) => find_from(chars@, pattern@, from as int) == Some(at as int) && from <= at
                && at + pattern.len() <= chars.len(),
            None => find_from(chars@, pattern@, from as int) is None,
        },
{
    let mut at: usize = from;
    loop
        invariant
            from <= at,
            find_from(chars@, pattern@, from as int) == find_from(chars@, pattern@, at as int),
        decreases chars@.len() + 1 - at,
    {
        if at > chars.len() || pattern.len() > chars.len() - at {
            return None;
        }
        if stands_at(chars, pattern, at) {
            return Some(at);
        }
        if at == chars.len() {
            proof {
                assert(find_from(chars@, pattern@, at + 1) is None);
            }
            return None;
        }
        at += 1;
    }
}

/// The last position of `pattern` in the characters.
pub fn last_position(chars: &Vec<char>, pattern: &Vec<char>) -> (res: Option<usize>)
    ensures
        match res {
            Some(at) => find_back(chars@, pattern@, chars@.len() as int) == Some(at as int) && at
                + pattern.len() <= chars.len(),
            None => find_back(chars@, pattern@, chars@.len() as int) is None,
        },
{
    let mut at: usize = chars.len();
    loop
        invariant
            at <= chars@.len(),
            find_back(chars@, pattern@, chars@.len() as int) == find_back(
                chars@,
                pattern@,
                at as int,
            ),
        decreases at,
    {
        if stands_at(chars, pattern, at) {
            return Some(at);
        }
        if at == 0 {
            proof {
                assert(find_back(chars@, pattern@, -1) is None);
            }
            return None;
        }
        at -= 1;
    }
}

/// Whether `pattern` stands anywhere in the text.
pub fn has_text(s: &str, pattern: &str) -> (res: bool)
    ensures
        res == contains(s@, pattern@),
{
    let chars = to_chars(s);
    let wanted = to_chars(pattern);
    proof {
        lemma_find_from(s@, pattern@, 0);
    }
    match position_from(&chars, &wanted, 0) {
        Some(at) => {
            proof {
                assert(occurs_at(s@, pattern@, at as int));
            }
            true
        },
        None => {
            proof {
                assert forall|at: int| !#[trigger] occurs_at(s@, pattern@, at) by {
                    if at < 0 {
                        assert(!occurs_at(s@, pattern@, at));
                    }
                }
            }
            false
        },
    }
}

/// Every occurrence of the character `c` replaced by the text `by`.
pub fn replace_char(s: &str, c: char, by: &str) -> (res: String)
    ensures
        res@ == replaced(s@, c, by@),
{
    let chars = to_chars(s);
    let mut res = String::new();
    let mut i: usize = 0;
    proof {
        assert(s@.take(0) =~= Seq::empty());
    }
    while i < chars.len()
        invariant
            i <= chars@.len(),
            chars@ == s@,
            res@ == replaced(s@.take(i as int), c, by@),
        decreases chars@.len() - i,
    {
        proof {
            let next = s@.take(i + 1);
            assert(next.drop_last() =~= s@.take(i as int));
            assert(next.last() == chars@[i as int]);
        }
        if chars[i] == c {
            res.push_str(by);
        } else {
            let ghost before = res@;
            res.push(chars[i]);
            proof {
                assert(before + seq![chars@[i as int]] =~= before.push(chars@[i as int]));
            }
        }
        i += 1;
    }
    proof {
        assert(s@.take(i as int) =~= s@);
    }
    res
}

/// There is always a last piece.
pub proof fn lemma_pieces_nonempty(s: Seq<char>, separator: char)
    ensures
        pieces(s, separator).len() > 0,
    decreases s.len(),
{
    if s.len() > 0 {
        lemma_pieces_nonempty(s.drop_last(), separator);
    }
}

/// The pieces of the text between the separators.
pub fn split_at_char(s: &str, separator: char) -> (res: Vec<String>)
    ensures
        views(res@) == pieces(s@, separator),
{
    let chars = to_chars(s);
    let mut res: Vec<String> = Vec::new();
    let mut current = String::new();
    let mut i: usize = 0;
    proof {
        assert(s@.take(0) =~= Seq::empty());
        assert(views(res@).push(current@) =~= pieces(s@.take(0), separator));
    }
    while i < chars.len()
        invariant
            i <= chars@.len(),
            chars@ == s@,
            views(res@).push(current@) =~= pieces(s@.take(i as int), separator),
        decreases chars@.len() - i,
    {
        let c = chars[i];
        proof {
            let next = s@.take(i + 1);
            assert(next.drop_last() =~= s@.take(i as int));
            assert(next.last() == c);
        }
        let ghost before = pieces(s@.take(i as int), separator);
        if c == separator {
            let ghost done = res@;
            res.push(current);
            current = String::new();
            proof {
                assert(views(res@) =~= views(done).push(res@.last()@));
                assert(views(res@).push(current@) =~= before.push(Seq::empty()));
            }
        } else {
            current.push(c);
            proof {
                assert(views(res@).push(current@) =~= before.drop_last().push(
                    before.last().push(c),
                ));
            }
        }
        i += 1;
    }
    let ghost done = res@;
    res.push(current);
    proof {
        assert(views(res@) =~= views(done).push(res@.last()@));
        assert(s@.take(i as int) =~= s@);
    }
    res
}

/// The lines of the text.
pub fn lines(s: &str) -> (res: Vec<String>)
    ensures
        views(res@) == lines_of(s@),
{
    proof {
        lemma_pieces_nonempty(s@, '\n');
    }
    let mut all = split_at_char(s, '\n');
    let ghost every = pieces(s@, '\n');
    let ghost whole = all@;
    proof {
        assert(views(whole).len() == whole.len());
    }
    let last = all.pop().unwrap();
    proof {
        assert(last@ == views(whole).last());
        assert(views(all@) =~= every.drop_last());
    }
    let mut res: Vec<String> = Vec::new();
    let ghost ended = every.drop_last().map_values(|line: Seq<char>| without_carriage_return(line));
    let mut i: usize = 0;
    while i < all.len()
        invariant
            i <= all@.len(),
            views(all@) == every.drop_last(),
            ended == every.drop_last().map_values(
                |line: Seq<char>| without_carriage_return(line),
            ),
            views(res@) =~= ended.take(i as int),
        decreases all@.len() - i,
    {
        let chars = to_chars(all[i].as_str());
        proof {
            assert(views(all@)[i as int] == chars@);
            assert(ended.take(i + 1) =~= ended.take(i as int).push(without_carriage_return(chars@)));
        }
        let ghost before = res@;
        if chars.len() > 0 && chars[chars.len() - 1] == '\r' {
            res.push(string_between(&chars, 0, chars.len() - 1));
            proof {
                assert(chars@.subrange(0, chars@.len() - 1) =~= chars@.drop_last());
            }
        } else {
            res.push(string_of(&chars));
        }
        proof {
            assert(views(res@) =~= views(before).push(res@.last()@));
        }
        i += 1;
    }
    proof {
        assert(views(all@).len() == all@.len());
        assert(ended.take(i as int) =~= ended);
    }
    if last.as_str().is_empty() {
        return res;
    }
    let ghost before = res@;
    res.push(last);
    proof {
        assert(views(res@) =~= views(before).push(res@.last()@));
    }
    res
}

/// Where a text does not end in white space, it has a last word.
pub proof fn lemma_last_word(s: Seq<char>)
    ensures
        s.len() > 0 && !is_white(s.last()) ==> words(s).len() > 0,
    decreases s.len(),
{
    if s.len() > 1 {
        lemma_last_word(s.drop_last());
    }
}

/// The words of the text.
pub fn split_words(s: &str) -> (res: Vec<String>)
    ensures
        views(res@) == words(s@),
{
    let chars = to_chars(s);
    let mut res: Vec<String> = Vec::new();
    let mut current = String::new();
    let mut i: usize = 0;
    proof {
        assert(s@.take(0) =~= Seq::empty());
    }
    while i < chars.len()
        invariant
            i <= chars@.len(),
            chars@ == s@,
            current@.len() > 0 <==> (i > 0 && !is_white(s@[i - 1])),
            words(s@.take(i as int)) =~= if current@.len() > 0 {
                views(res@).push(current@)
            } else {
                views(res@)
            },
        decreases chars@.len() - i,
    {
        let c = chars[i];
        let ghost before = words(s@.take(i as int));
        proof {
            let next = s@.take(i + 1);
            assert(next.drop_last() =~= s@.take(i as int));
            assert(next.last() == c);
            assert(i > 0 ==> next[next.len() - 2] == s@[i - 1]);
        }
        if is_white_space(c) {
            if !current.as_str().is_empty() {
                let ghost done = res@;
                res.push(current);
                current = String::new();
                proof {
                    assert(views(res@) =~= views(done).push(res@.last()@));
                }
            }
        } else {
            let ghost held = current@;
            current.push(c);
            proof {
                if held.len() > 0 {
                    assert(views(res@).push(current@) =~= before.drop_last().push(
                        before.last().push(c),
                    ));
                } else {
                    assert(held =~= Seq::empty());
                    assert(current@ =~= seq![c]);
                }
            }
        }
        i += 1;
    }
    proof {
        assert(s@.take(i as int) =~= s@);
    }
    if !current.as_str().is_empty() {
        let ghost done = res@;
        res.push(current);
        proof {
            assert(views(res@) =~= views(done).push(res@.last()@));
        }
    }
    res
}

/// The parts one after the other, with the separator between two of them.
pub fn join(parts: &Vec<String>, separator: &str) -> (res: String)
    ensures
        res@ == joined(views(parts@), separator@),
{
    let mut res = String::new();
    let mut i: usize = 0;
    let ghost all = views(parts@);
    while i < parts.len()
        invariant
            i <= parts@.len(),
            all == views(parts@),
            res@ == joined(all.take(i as int), separator@),
        decreases parts@.len() - i,
    {
        proof {
            let next = all.take(i + 1);
            assert(next.drop_last() =~= all.take(i as int));
            assert(next.last() == parts@[i as int]@);
        }
        if i > 0 {
            res.push_str(separator);
        }
        let ghost before = res@;
        res.push_str(parts[i].as_str());
        proof {
            if i == 0 {
                assert(before =~= Seq::empty());
                assert(res@ =~= all.take(1)[0]);
            }
        }
        i += 1;
    }
    proof {
        assert(all.take(i as int) =~= all);
    }
    res
}

/// The decimal digit for a number below ten.
fn digit_char(n: u64) -> (res: char)
    requires
        n < 10,
    ensures
        res == digit(n as nat),
{
    if n == 0 {
        '0'
    } else if n == 1 {
        '1'
    } else if n == 2 {
        '2'
    } else if n == 3 {
        '3'
    } else if n == 4 {
        '4'
    } else if n == 5 {
        '5'
    } else if n == 6 {
        '6'
    } else if n == 7 {
        '7'
    } else if n == 8 {
        '8'
    } else {
        '9'
    }
}

/// A natural number in decimal notation.
pub fn decimal_text(n: u64) -> (res: String)
    ensures
        res@ == decimal(n as nat),
    decreases n,
{
    if n < 10 {
        let mut res = String::new();
        res.push(digit_char(n));
        proof {
            assert(res@ =~= seq![digit(n as nat)]);
        }
        res
    } else {
        let mut res = decimal_text(n / 10);
        res.push(digit_char(n % 10));
        res
    }
}

/// An integer in decimal notation.
pub fn signed_decimal_text(n: i64) -> (res: String)
    ensures
        res@ == signed_decimal(n as int),
{
    if n >= 0 {
        return decimal_text(n as u64);
    }
    let magnitude: u64 = if n == i64::MIN {
        0x8000_0000_0000_0000
    } else {
        (-n) as u64
    };
    let mut res = String::new();
    res.push('-');
    let digits = decimal_text(magnitude);
    res.push_str(digits.as_str());
    proof {
        assert(res@ =~= seq!['-'] + decimal(magnitude as nat));
    }
    res
}

/// The text with every ASCII upper-case letter in lower case.
pub fn to_ascii_lowercase(s: &str) -> (res: String)
    ensures
        res@ == ascii_lowercase(s@),
{
    let chars = to_chars(s);
    let mut res = String::new();
    let mut i: usize = 0;
    while i < chars.len()
        invariant
            i <= chars@.len(),
            chars@ == s@,
            res@ =~= ascii_lowercase(s@.take(i as int)),
        decreases chars@.len() - i,
    {
        let c = chars[i];
        let lower = lower_char(c);
        res.push(lower);
        proof {
            assert(s@.take(i + 1) =~= s@.take(i as int).push(c));
        }
        i += 1;
    }
    proof {
        assert(s@.take(i as int) =~= s@);
    }
    res
}

/// The lower-case letter for an ASCII upper-case letter.
fn lower_char(c: char) -> (res: char)
    ensures
        res == ascii_lower(c),
{
    if 'A' <= c && c <= 'Z' {
        (c as u8 + 32u8) as char
    } else {
        c
    }
}

/// Whether the first text comes strictly before the second.
pub fn comes_before(a: &str, b: &str) -> (res: bool)
    ensures
        res == text_before(a@, b@),
{
    let left = to_chars(a);
    let right = to_chars(b);
    let mut i: usize = 0;
    proof {
        assert(a@.skip(0) =~= a@);
        assert(b@.skip(0) =~= b@);
    }
    loop
        invariant
            i <= left@.len(),
            i <= right@.len(),
            left@ == a@,
            right@ == b@,
            text_before(a@, b@) == text_before(a@.skip(i as int), b@.skip(i as int)),
        decreases left@.len() - i,
    {
        if i == right.len() {
            return false;
        }
        if i == left.len() {
            return true;
        }
        if left[i] != right[i] {
            return left[i] < right[i];
        }
        proof {
            assert(a@.skip(i as int).drop_first() =~= a@.skip(i + 1));
            assert(b@.skip(i as int).drop_first() =~= b@.skip(i + 1));
        }
        i += 1;
    }
}

/// A copy of a text that may be absent.
pub fn clone_opt(text: &Option<String>) -> (res: Option<String>)
    ensures
        res == *text,
        opt_view(res) == opt_view(*text),
{
    match text {
        Some(s) => Some(s.clone()),
        None => None,
    }
}

/// A text that may be absent, borrowed.
pub fn as_deref(text: &Option<String>) -> (res: Option<&str>)
    ensures
        opt_str_view(res) == opt_view(*text),
{
    match text {
        Some(s) => Some(s.as_str()),
        None => None,
    }
}

/// The trimmed text, where there is one and it is not blank.
pub open spec fn filled(text: Option<Seq<char>>) -> Option<Seq<char>> {
    match text {
        Some(s) if !is_blank(s) => Some(trimmed(s)),
        _ => None,
    }
}

/// The trimmed text, where there is one and it is not blank.
pub fn trim_filled<'a>(text: Option<&'a str>) -> (res: Option<&'a str>)
    ensures
        opt_str_view(res) == filled(opt_str_view(text)),
{
    match text {
        Some(s) => {
            let s = trim(s);
            if s.is_empty() {
                None
            } else {
                Some(s)
            }
        },
        None => None,
    }
}

/// The text itself, or the one to fall back on.
pub open spec fn or_text(text: Option<Seq<char>>, fallback: Seq<char>) -> Seq<char> {
    match text {
        Some(s) => s,
        None => fallback,
    }
}

/// The order of texts is strict and total.
pub proof fn lemma_text_order(a: Seq<char>, b: Seq<char>)
    ensures
        !(text_before(a, b) && text_before(b, a)),
        !text_before(a, a),
        text_before(a, b) || text_before(b, a) || a == b,
    decreases a.len(),
{
    if a.len() > 0 {
        lemma_text_order(a.drop_first(), a.drop_first());
        if b.len() > 0 && a[0] == b[0] {
            lemma_text_order(a.drop_first(), b.drop_first());
            if a.drop_first() == b.drop_first() {
                assert(a =~= seq![a[0]] + a.drop_first());
                assert(b =~= seq![b[0]] + b.drop_first());
            }
        }
    }
    if a.len() == 0 && b.len() == 0 {
        assert(a =~= b);
    }
}

/// The order of texts is transitive.
pub proof fn lemma_text_order_transitive(a: Seq<char>, b: Seq<char>, c: Seq<char>)
    requires
        text_before(a, b),
        text_before(b, c),
    ensures
        text_before(a, c),
    decreases a.len(),
{
    if a.len() > 0 && b.len() > 0 && c.len() > 0 && a[0] == b[0] && b[0] == c[0] {
        lemma_text_order_transitive(a.drop_first(), b.drop_first(), c.drop_first());
    }
}

/// Whether every text in a list comes strictly before those behind it.
pub open spec fn is_increasing(list: Seq<Seq<char>>) -> bool {
    forall|i: int, j: int|
        0 <= i < j < list.len() ==> text_before(#[trigger] list[i], #[trigger] list[j])
}

/// Adds a text to an increasing list, unless it is there.
pub fn add_distinct(list: &mut Vec<String>, item: String)
    requires
        is_increasing(views(old(list)@)),
    ensures
        is_increasing(views(final(list)@)),
        forall|s: Seq<char>|
            views(final(list)@).contains(s) <==> (views(old(list)@).contains(s) || s == item@),
{
    let ghost all = views(list@);
    let mut at: usize = 0;
    while at < list.len() && comes_before(list[at].as_str(), item.as_str())
        invariant
            at <= list@.len(),
            list@ == old(list)@,
            all == views(list@),
            forall|k: int| 0 <= k < at ==> text_before(#[trigger] all[k], item@),
        decreases list@.len() - at,
    {
        proof {
            assert(all[at as int] == list@[at as int]@);
        }
        at += 1;
    }
    if at < list.len() && same_text(list[at].as_str(), item.as_str()) {
        proof {
            assert(all[at as int] == item@);
        }
        return;
    }
    let ghost shown = item@;
    proof {
        if at < all.len() {
            lemma_text_order(all[at as int], shown);
            assert(text_before(shown, all[at as int]));
        }
        assert forall|k: int| at <= k < all.len() implies text_before(shown, #[trigger] all[k]) by {
            if k > at {
                assert(text_before(all[at as int], all[k]));
                lemma_text_order_transitive(shown, all[at as int], all[k]);
            }
        }
    }
    list.insert(at, item);
    proof {
        let now = views(list@);
        assert(now =~= all.take(at as int).push(shown) + all.skip(at as int));
        assert forall|i: int, j: int| 0 <= i < j < now.len() implies text_before(
            #[trigger] now[i],
            #[trigger] now[j],
        ) by {
            let a = if i < at {
                i
            } else {
                i - 1
            };
            let b = if j < at {
                j
            } else {
                j - 1
            };
            if i == at {
                assert(now[j] == all[b]);
            } else if j == at {
                assert(now[i] == all[a]);
            } else {
                assert(now[i] == all[a] && now[j] == all[b]);
                assert(text_before(all[a], all[b]));
            }
        }
        assert forall|s: Seq<char>| now.contains(s) <==> (all.contains(s) || s == shown) by {
            if now.contains(s) && s != shown {
                let k = choose|k: int| 0 <= k < now.len() && now[k] == s;
                if k < at {
                    assert(all[k] == s);
                } else {
                    assert(all[k - 1] == s);
                }
            }
            if all.contains(s) {
                let k = choose|k: int| 0 <= k < all.len() && all[k] == s;
                if k < at {
                    assert(now[k] == s);
                } else {
                    assert(now[k + 1] == s);
                }
            }
            assert(now[at as int] == shown);
        }
    }
}

/// The texts of a list, each once, in increasing order.
pub fn sorted_distinct(list: Vec<String>) -> (res: Vec<String>)
    ensures
        is_increasing(views(res@)),
        forall|s: Seq<char>| views(res@).contains(s) <==> views(list@).contains(s),
{
    let ghost all = views(list@);
    let mut rest = list;
    let mut res: Vec<String> = Vec::new();
    proof {
        assert(all.skip(all.len() as int) =~= Seq::empty());
        assert(views(rest@) =~= all);
    }
    while rest.len() > 0
        invariant
            all == views(list@),
            rest@.len() <= all.len(),
            views(rest@) =~= all.take(rest@.len() as int),
            is_increasing(views(res@)),
            forall|s: Seq<char>|
                views(res@).contains(s) <==> all.skip(rest@.len() as int).contains(s),
        decreases rest@.len(),
    {
        let ghost n = rest@.len() as int;
        let ghost held = rest@;
        let ghost before = views(res@);
        let item = rest.pop().unwrap();
        proof {
            assert(item@ == views(held)[n - 1]);
            assert(item@ == all[n - 1]);
            assert(views(rest@) =~= views(held).drop_last());
            let wider = all.skip(n - 1);
            let narrow = all.skip(n);
            assert(wider =~= seq![all[n - 1]] + narrow);
            assert forall|s: Seq<char>| wider.contains(s) <==> (narrow.contains(s) || s
                == all[n - 1]) by {
                if wider.contains(s) {
                    let k = choose|k: int| 0 <= k < wider.len() && wider[k] == s;
                    if k > 0 {
                        assert(narrow[k - 1] == s);
                    }
                }
                if narrow.contains(s) {
                    let k = choose|k: int| 0 <= k < narrow.len() && narrow[k] == s;
                    assert(wider[k + 1] == s);
                }
                assert(wider[0] == all[n - 1]);
            }
        }
        add_distinct(&mut res, item);
    }
    proof {
        assert(all.skip(0) =~= all);
    }
    res
}

/// Whether a text is in a list.
pub fn list_has(list: &Vec<String>, item: &str) -> (res: bool)
    ensures
        res == views(list@).contains(item@),
{
    let ghost all = views(list@);
    let mut i: usize = 0;
    while i < list.len()
        invariant
            i <= list@.len(),
            all == views(list@),
            forall|k: int| 0 <= k < i ==> all[k] != item@,
        decreases list@.len() - i,
    {
        proof {
            assert(all[i as int] == list@[i as int]@);
        }
        if same_text(list[i].as_str(), item) {
            return true;
        }
        i += 1;
    }
    false
}

/// Adds a line behind the others.
pub fn push_line(lines: &mut Vec<String>, line: String)
    ensures
        views(final(lines)@) == views(old(lines)@).push(line@),
{
    let ghost before = lines@;
    let ghost shown = line@;
    lines.push(line);
    proof {
        assert(views(lines@) =~= views(before).push(shown));
    }
}

/// Two texts one after the other.
pub fn concat2(a: &str, b: &str) -> (res: String)
    ensures
        res@ == a@ + b@,
{
    let mut res = a.to_owned();
    res.push_str(b);
    res
}

/// Three texts one after the other.
pub fn concat3(a: &str, b: &str, c: &str) -> (res: String)
    ensures
        res@ == a@ + b@ + c@,
{
    let mut res = concat2(a, b);
    res.push_str(c);
    res
}

/// Four texts one after the other.
pub fn concat4(a: &str, b: &str, c: &str, d: &str) -> (res: String)
    ensures
        res@ == a@ + b@ + c@ + d@,
{
    let mut res = concat3(a, b, c);
    res.push_str(d);
    res
}

/// Five texts one after the other.
pub fn concat5(a: &str, b: &str, c: &str, d: &str, e: &str) -> (res: String)
    ensures
        res@ == a@ + b@ + c@ + d@ + e@,
{
    let mut res = concat4(a, b, c, d);
    res.push_str(e);
    res
}

/// The text itself, or the one to fall back on.
pub fn text_or<'a>(text: Option<&'a str>, fallback: &'a str) -> (res: &'a str)
    ensures
        res@ == or_text(opt_str_view(text), fallback@),
{
    match text {
        Some(s) => s,
        None => fallback,
    }
}

/// What is added behind the last separator belongs to the last piece.
pub proof fn lemma_pieces_appended(a: Seq<char>, b: Seq<char>, separator: char)
    requires
        !b.contains(separator),
    ensures
        pieces(a + b, separator) == pieces(a, separator).drop_last().push(
            pieces(a, separator).last() + b,
        ),
    decreases b.len(),
{
    lemma_pieces_nonempty(a, separator);
    if b.len() == 0 {
        assert(a + b =~= a);
        assert(pieces(a, separator).last() + b =~= pieces(a, separator).last());
        assert(pieces(a, separator) =~= pieces(a, separator).drop_last().push(
            pieces(a, separator).last(),
        ));
    } else {
        let shorter = b.drop_last();
        assert forall|k: int| 0 <= k < shorter.len() implies shorter[k] != separator by {
            assert(b[k] == shorter[k]);
        }
        lemma_pieces_appended(a, shorter, separator);
        assert((a + b).drop_last() =~= a + shorter);
        assert(b[b.len() - 1] != separator);
        assert((a + b).last() == b.last());
        let before = pieces(a + shorter, separator);
        assert(before.drop_last() =~= pieces(a, separator).drop_last());
        assert((pieces(a, separator).last() + shorter).push(b.last()) =~= pieces(
            a,
            separator,
        ).last() + b);
    }
}

/// Texts without the separator, joined by it, are its pieces.
pub proof fn lemma_pieces_of_joined(parts: Seq<Seq<char>>, separator: char)
    requires
        parts.len() > 0,
        forall|i: int| 0 <= i < parts.len() ==> !(#[trigger] parts[i]).contains(separator),
    ensures
        pieces(joined(parts, seq![separator]), separator) == parts,
    decreases parts.len(),
{
    if parts.len() == 1 {
        let empty = Seq::<char>::empty();
        lemma_pieces_appended(empty, parts[0], separator);
        assert(empty + parts[0] =~= parts[0]);
        assert(pieces(empty, separator).drop_last().push(
            pieces(empty, separator).last() + parts[0],
        ) =~= parts);
    } else {
        let before = parts.drop_last();
        assert forall|i: int| 0 <= i < before.len() implies !(#[trigger] before[i]).contains(
            separator,
        ) by {
            assert(before[i] == parts[i]);
        }
        lemma_pieces_of_joined(before, separator);
        let head = joined(before, seq![separator]);
        let ended = head + seq![separator];
        assert(ended.drop_last() =~= head);
        assert(pieces(ended, separator) == before.push(Seq::empty()));
        assert(!parts[parts.len() - 1].contains(separator));
        lemma_pieces_appended(ended, parts.last(), separator);
        assert(before.push(Seq::<char>::empty()).drop_last() =~= before);
        assert(Seq::<char>::empty() + parts.last() =~= parts.last());
        assert(before.push(parts.last()) =~= parts);
    }
}

/// Where a part begins in the joined text, if each part before it is followed by a separator of
/// the given length.
pub open spec fn part_start(parts: Seq<Seq<char>>, gap: nat, k: int) -> nat
    decreases k,
{
    if k <= 0 {
        0
    } else {
        part_start(parts, gap, k - 1) + parts[k - 1].len() + gap
    }
}

/// A joined text holds every part, in their order, with the separator between one and the next,
/// and nothing else.
pub proof fn law_joined_holds_every_part(parts: Seq<Seq<char>>, separator: Seq<char>, k: int)
    requires
        0 <= k < parts.len(),
    ensures
        occurs_at(
            joined(parts, separator),
            parts[k],
            part_start(parts, separator.len(), k) as int,
        ),
        k > 0 ==> occurs_at(
            joined(parts, separator),
            separator,
            part_start(parts, separator.len(), k) - separator.len(),
        ),
        joined(parts, separator).len() + separator.len() == part_start(
            parts,
            separator.len(),
            parts.len() as int,
        ),
    decreases parts.len(),
{
    let whole = joined(parts, separator);
    let gap = separator.len();
    let last = parts.len() - 1;
    let at = part_start(parts, gap, k) as int;
    assert(part_start(parts, gap, last + 1) == part_start(parts, gap, last) + parts[last].len()
        + gap);
    if parts.len() == 1 {
        assert(part_start(parts, gap, 0) == 0);
        assert(whole.subrange(0, whole.len() as int) =~= whole);
    } else {
        let shorter = parts.drop_last();
        let head = joined(shorter, separator);
        lemma_part_start(shorter, parts, gap, last);
        lemma_part_start(shorter, parts, gap, k);
        assert(whole == head + separator + parts[last]);
        if k < last {
            law_joined_holds_every_part(shorter, separator, k);
            assert(shorter[k] == parts[k]);
            assert(whole.subrange(at, at + parts[k].len()) =~= head.subrange(
                at,
                at + parts[k].len(),
            ));
            if k > 0 {
                assert(whole.subrange(at - gap, at) =~= head.subrange(at - gap, at));
            }
        } else {
            law_joined_holds_every_part(shorter, separator, 0);
            assert(whole.subrange(at, at + parts[last].len()) =~= parts[last]);
            assert(whole.subrange(at - gap, at) =~= separator);
        }
    }
}

/// Where a part begins depends on the parts before it only.
proof fn lemma_part_start(shorter: Seq<Seq<char>>, parts: Seq<Seq<char>>, gap: nat, k: int)
    requires
        shorter == parts.drop_last(),
        parts.len() > 0,
        0 <= k < parts.len(),
    ensures
        part_start(shorter, gap, k) == part_start(parts, gap, k),
    decreases k,
{
    if k > 0 {
        lemma_part_start(shorter, parts, gap, k - 1);
    }
}

/// Spaces, tabs and line ends are white space; no letter, digit or mark of ASCII is.
pub proof fn law_visible_characters_are_not_white(c: char)
    ensures
        c == ' ' || c == '\t' || c == '\n' || c == '\r' ==> is_white(c),
        0x21 <= c as u32 <= 0x7E ==> !is_white(c),
{
}

/// Trimming cuts white space off both ends, all of it and nothing else; a text is blank exactly
/// where all of it is white space.
pub proof fn law_trimming_cuts_white_space_off(s: Seq<char>) -> (bounds: (int, int))
    ensures
        0 <= bounds.0 <= bounds.1 <= s.len(),
        trimmed(s) == s.subrange(bounds.0, bounds.1),
        forall|k: int| 0 <= k < bounds.0 || bounds.1 <= k < s.len() ==> is_white(#[trigger] s[k]),
        trimmed(s).len() > 0 ==> !is_white(trimmed(s)[0]) && !is_white(trimmed(s).last()),
        is_blank(s) <==> forall|k: int| 0 <= k < s.len() ==> is_white(#[trigger] s[k]),
{
    let from = lemma_trimmed_start(s);
    let rest = s.skip(from);
    let to = lemma_trimmed_end(rest);
    assert(rest.take(to) =~= s.subrange(from, from + to));
    assert forall|k: int| 0 <= k < from || from + to <= k < s.len() implies is_white(
        #[trigger] s[k],
    ) by {
        if k >= from + to {
            assert(rest[k - from] == s[k]);
        }
    }
    if to > 0 {
        assert(rest[0] == s[from]);
        assert(!is_white(rest[to - 1]));
        assert(!is_white(s[from + to - 1]));
    }
    (from, from + to)
}

proof fn lemma_trimmed_start(s: Seq<char>) -> (from: int)
    ensures
        0 <= from <= s.len(),
        trimmed_start(s) == s.skip(from),
        forall|k: int| 0 <= k < from ==> is_white(#[trigger] s[k]),
        from < s.len() ==> !is_white(s[from]),
    decreases s.len(),
{
    if s.len() > 0 && is_white(s[0]) {
        let rest = s.drop_first();
        let from = lemma_trimmed_start(rest);
        assert(rest.skip(from) =~= s.skip(from + 1));
        assert forall|k: int| 0 <= k < from + 1 implies is_white(#[trigger] s[k]) by {
            if k > 0 {
                assert(rest[k - 1] == s[k]);
            }
        }
        if from < rest.len() {
            assert(rest[from] == s[from + 1]);
        }
        from + 1
    } else {
        assert(s.skip(0) =~= s);
        0
    }
}

proof fn lemma_trimmed_end(s: Seq<char>) -> (to: int)
    ensures
        0 <= to <= s.len(),
        trimmed_end(s) == s.take(to),
        forall|k: int| to <= k < s.len() ==> is_white(#[trigger] s[k]),
        to > 0 ==> !is_white(s[to - 1]),
    decreases s.len(),
{
    if s.len() > 0 && is_white(s.last()) {
        let rest = s.drop_last();
        let to = lemma_trimmed_end(rest);
        assert(rest.take(to) =~= s.take(to));
        assert forall|k: int| to <= k < s.len() implies is_white(#[trigger] s[k]) by {
            if k < rest.len() {
                assert(rest[k] == s[k]);
            }
        }
        if to > 0 {
            assert(rest[to - 1] == s[to - 1]);
        }
        to
    } else {
        assert(s.take(s.len() as int) =~= s);
        s.len() as int
    }
}

/// A text is cut at every separator and nowhere else: the pieces of two texts with a separator
/// between them are the pieces of the one and then those of the other.
pub proof fn law_pieces_end_at_separators(a: Seq<char>, b: Seq<char>, separator: char)
    ensures
        pieces(a + seq![separator] + b, separator) == pieces(a, separator) + pieces(b, separator),
        !a.contains(separator) ==> pieces(a, separator) == seq![a],
    decreases b.len(),
{
    let whole = a + seq![separator] + b;
    if b.len() == 0 {
        assert(whole.drop_last() =~= a);
        assert(whole.last() == separator);
        assert(pieces(a, separator).push(Seq::empty()) =~= pieces(a, separator) + pieces(
            b,
            separator,
        ));
    } else {
        law_pieces_end_at_separators(a, b.drop_last(), separator);
        lemma_pieces_nonempty(b.drop_last(), separator);
        assert(whole.drop_last() =~= a + seq![separator] + b.drop_last());
        assert(whole.last() == b.last());
        let left = pieces(a, separator);
        let right = pieces(b.drop_last(), separator);
        assert((left + right).last() == right.last());
        assert((left + right).drop_last() =~= left + right.drop_last());
        assert(pieces(whole, separator) =~= left + pieces(b, separator));
    }
    if !a.contains(separator) {
        let empty = Seq::<char>::empty();
        lemma_pieces_appended(empty, a, separator);
        assert(empty + a =~= a);
        assert(pieces(empty, separator).drop_last().push(empty + a) =~= seq![a]);
    }
}

/// A line goes up to the line feed that ends it, without a carriage return before that; the last
/// line needs no end, and an empty text has no line.
pub proof fn law_lines_end_at_line_feeds(line: Seq<char>, rest: Seq<char>)
    requires
        !line.contains('\n'),
    ensures
        lines_of(line + seq!['\n'] + rest) == seq![without_carriage_return(line)] + lines_of(rest),
        lines_of(line) == if line.len() == 0 {
            Seq::<Seq<char>>::empty()
        } else {
            seq![line]
        },
        line.len() > 0 && line.last() == '\r' ==> without_carriage_return(line)
            == line.drop_last(),
        line.len() == 0 || line.last() != '\r' ==> without_carriage_return(line) == line,
{
    law_pieces_end_at_separators(line, rest, '\n');
    law_pieces_end_at_separators(rest, line, '\n');
    lemma_pieces_nonempty(rest, '\n');
    let whole = line + seq!['\n'] + rest;
    let all = pieces(whole, '\n');
    let behind = pieces(rest, '\n');
    assert(all =~= seq![line] + behind);
    assert(all.last() == behind.last());
    assert(all.drop_last() =~= seq![line] + behind.drop_last());
    assert(lines_of(whole) =~= seq![without_carriage_return(line)] + lines_of(rest));
    assert(pieces(line, '\n').drop_last() =~= Seq::<Seq<char>>::empty());
    assert(lines_of(line) =~= if line.len() == 0 {
        Seq::<Seq<char>>::empty()
    } else {
        seq![line]
    });
}

/// Words end at white space and nowhere else: the words of two texts with white space between them
/// are the words of the one and then those of the other, and a text without any is one word.
pub proof fn law_words_end_at_white_space(a: Seq<char>, white: char, b: Seq<char>)
    requires
        is_white(white),
    ensures
        words(a + seq![white] + b) == words(a) + words(b),
        a.len() > 0 && (forall|k: int| 0 <= k < a.len() ==> !is_white(#[trigger] a[k])) ==> words(a)
            == seq![a],
        a.len() == 0 ==> words(a).len() == 0,
    decreases a.len() + b.len(),
{
    let whole = a + seq![white] + b;
    if b.len() == 0 {
        assert(whole.drop_last() =~= a);
        assert(whole.last() == white);
        assert(words(a) + words(b) =~= words(a));
    } else {
        law_words_end_at_white_space(a, white, b.drop_last());
        assert(whole.drop_last() =~= a + seq![white] + b.drop_last());
        assert(whole.last() == b.last());
        let left = words(a);
        let right = words(b.drop_last());
        if is_white(b.last()) {
        } else if b.len() > 1 {
            assert(whole[whole.len() - 2] == b[b.len() - 2]);
            if !is_white(b[b.len() - 2]) {
                lemma_last_word(b.drop_last());
                assert(b.drop_last().last() == b[b.len() - 2]);
                assert((left + right).last() == right.last());
                assert((left + right).drop_last() =~= left + right.drop_last());
            }
        } else {
            assert(whole[whole.len() - 2] == white);
        }
        assert(words(whole) =~= left + words(b));
    }
    if a.len() > 0 && (forall|k: int| 0 <= k < a.len() ==> !is_white(#[trigger] a[k])) {
        lemma_one_word(a);
    }
}

proof fn lemma_one_word(s: Seq<char>)
    requires
        s.len() > 0,
        forall|k: int| 0 <= k < s.len() ==> !is_white(#[trigger] s[k]),
    ensures
        words(s) == seq![s],
    decreases s.len(),
{
    let rest = s.drop_last();
    assert(!is_white(s[s.len() - 1]));
    if rest.len() > 0 {
        assert forall|k: int| 0 <= k < rest.len() implies !is_white(#[trigger] rest[k]) by {
            assert(rest[k] == s[k]);
        }
        lemma_one_word(rest);
        assert(!is_white(s[s.len() - 2]));
        assert(rest.push(s.last()) =~= s);
        assert(seq![rest].drop_last().push(rest.push(s.last())) =~= seq![s]);
    } else {
        assert(words(rest) =~= Seq::<Seq<char>>::empty());
        assert(seq![s.last()] =~= s);
    }
}

/// A character is replaced wherever it stands, and every other character stays.
pub proof fn law_every_occurrence_is_replaced(a: Seq<char>, b: Seq<char>, c: char, by: Seq<char>)
    ensures
        replaced(a + seq![c] + b, c, by) == replaced(a, c, by) + by + replaced(b, c, by),
        !a.contains(c) ==> replaced(a, c, by) == a,
    decreases a.len() + b.len(),
{
    let whole = a + seq![c] + b;
    if b.len() == 0 {
        assert(whole.drop_last() =~= a);
        assert(replaced(a, c, by) + by + b =~= replaced(a, c, by) + by);
    } else {
        law_every_occurrence_is_replaced(a, b.drop_last(), c, by);
        assert(whole.drop_last() =~= a + seq![c] + b.drop_last());
        assert(whole.last() == b.last());
        assert(replaced(whole, c, by) =~= replaced(a, c, by) + by + replaced(b, c, by));
    }
    if !a.contains(c) && a.len() > 0 {
        let rest = a.drop_last();
        assert(a[a.len() - 1] != c);
        assert forall|k: int| 0 <= k < rest.len() implies rest[k] != c by {
            assert(a[k] == rest[k]);
        }
        law_every_occurrence_is_replaced(rest, Seq::empty(), c, by);
        assert(rest + seq![a.last()] =~= a);
    }
}

/// Decimal notation has one digit for each power of ten, the last for the ones; a number below ten
/// is one digit, and no number begins with a nought but nought itself.
pub proof fn law_decimal_has_a_digit_for_each_power(n: nat, d: nat)
    requires
        d < 10,
    ensures
        decimal(d).len() == 1 && decimal(d)[0] as u32 == 0x30 + d,
        n > 0 ==> decimal(n * 10 + d).drop_last() == decimal(n) && decimal(n * 10 + d).last() as u32
            == 0x30 + d,
        n > 0 ==> decimal(n)[0] != '0',
        signed_decimal(n as int) == decimal(n),
        n > 0 ==> signed_decimal(-(n as int)) == seq!['-'] + decimal(n),
    decreases n,
{
    assert((n * 10 + d) / 10 == n && (n * 10 + d) % 10 == d);
    if n > 0 {
        assert(decimal(n * 10 + d) == decimal(n).push(digit(n * 10 + d)));
        assert(decimal(n * 10 + d).drop_last() =~= decimal(n));
        if n >= 10 {
            law_decimal_has_a_digit_for_each_power(n / 10, n % 10);
            assert(n / 10 * 10 + n % 10 == n);
            assert(decimal(n)[0] == decimal(n / 10)[0]);
        }
    }
}

/// Lower case changes the letters from A to Z, each to the letter 32 places on, and nothing else.
pub proof fn law_lower_case_changes_letters_only(s: Seq<char>, i: int)
    requires
        0 <= i < s.len(),
    ensures
        ascii_lowercase(s).len() == s.len(),
        'A' <= s[i] <= 'Z' ==> ascii_lowercase(s)[i] as u32 == s[i] as u32 + 32,
        !('A' <= s[i] <= 'Z') ==> ascii_lowercase(s)[i] == s[i],
{
}

/// Texts are ordered by the first character in which they differ; a text comes before every longer
/// one that begins with it.
pub proof fn law_the_first_difference_decides(
    common: Seq<char>,
    x: char,
    a: Seq<char>,
    y: char,
    b: Seq<char>,
)
    requires
        x < y,
    ensures
        text_before(common + seq![x] + a, common + seq![y] + b),
        !text_before(common + seq![y] + b, common + seq![x] + a),
        text_before(common, common + seq![x] + a),
        !text_before(common + seq![x] + a, common),
    decreases common.len(),
{
    let low = common + seq![x] + a;
    let high = common + seq![y] + b;
    if common.len() > 0 {
        let rest = common.drop_first();
        law_the_first_difference_decides(rest, x, a, y, b);
        assert(low.drop_first() =~= rest + seq![x] + a);
        assert(high.drop_first() =~= rest + seq![y] + b);
        assert(low[0] == common[0] && high[0] == common[0]);
    } else {
        assert(low[0] == x && high[0] == y);
    }
}

/// The last position that is found is the last one, and none is missed.
pub proof fn law_the_last_position_is_found(s: Seq<char>, pattern: Seq<char>, from: int)
    ensures
        match find_back(s, pattern, from) {
            Some(at) => at <= from && occurs_at(s, pattern, at) && forall|i: int|
                at < i <= from ==> !#[trigger] occurs_at(s, pattern, i),
            None => forall|i: int| i <= from ==> !#[trigger] occurs_at(s, pattern, i),
        },
    decreases from + 1,
{
    if from >= 0 && !occurs_at(s, pattern, from) {
        law_the_last_position_is_found(s, pattern, from - 1);
    }
}

/// A text counts as given where it is there and not blank; it is then taken without the white space
/// around it.
pub proof fn law_blank_texts_are_not_given(text: Option<Seq<char>>)
    ensures
        filled(text) is Some <==> text is Some && exists|k: int|
            0 <= k < text->0.len() && !is_white(#[trigger] text->0[k]),
        filled(text) matches Some(kept) ==> kept == trimmed(text->0),
{
    if text is Some {
        let bounds = law_trimming_cuts_white_space_off(text->0);
    }
}

/// A pattern is found where it first stands, and not at all where it stands nowhere.
pub proof fn law_the_first_position_is_found(s: Seq<char>, pattern: Seq<char>, at: int)
    requires
        occurs_at(s, pattern, at),
        forall|i: int| 0 <= i < at ==> !#[trigger] occurs_at(s, pattern, i),
    ensures
        find_from(s, pattern, 0) == Some(at),
{
    lemma_find_from(s, pattern, 0);
}

} // verus!
