//! Text behind the catalogue's names: comparing strings, the two written
//! forms of a name, and the full name that addresses a location from outside.

use vstd::prelude::*;
use vstd::string::*;
use vstd::utf8::*;

verus! {

/// An ASCII letter or digit: the only characters of an API key.
pub open spec fn is_alnum(c: char) -> bool {
    ('0' <= c && c <= '9') || ('A' <= c && c <= 'Z') || ('a' <= c && c <= 'z')
}

/// A space or an ASCII punctuation mark: what a display name may add to a key.
pub open spec fn is_punctuation(c: char) -> bool {
    (' ' <= c && c <= '/') || (':' <= c && c <= '@') || ('[' <= c && c <= '`') || ('{' <= c
        && c <= '~')
}

/// `c` with an ASCII capital letter replaced by its small letter.
pub open spec fn to_lower(c: char) -> char {
    if 'A' <= c && c <= 'Z' {
        ((c as u32) + 32) as char
    } else {
        c
    }
}

/// A well-formed API key: not empty, ASCII letters and digits only.
pub open spec fn is_key(s: Seq<char>) -> bool {
    s.len() > 0 && forall|i: int| 0 <= i < s.len() ==> is_alnum(#[trigger] s[i])
}

/// `s` without its spaces and punctuation marks.
pub open spec fn stripped(s: Seq<char>) -> Seq<char> {
    s.filter(|c: char| !is_punctuation(c))
}

/// `s` with every ASCII capital letter lowered.
pub open spec fn lowered(s: Seq<char>) -> Seq<char> {
    s.map_values(|c: char| to_lower(c))
}

/// A display name and a key write the same name: without spaces and
/// punctuation, and without regard to case, the display name is the key.
pub open spec fn same_name(display: Seq<char>, key: Seq<char>) -> bool {
    lowered(stripped(display)) == lowered(key)
}

/// Walks `display` and `key` backwards from positions `i` and `j`: true when
/// the first `i` characters of `display`, punctuation skipped, pair off
/// with the first `j` characters of `key`, each pair equal up to case and
/// each character of `key` a letter or digit.
pub open spec fn pairs_off(display: Seq<char>, i: int, key: Seq<char>, j: int) -> bool
    decreases i,
{
    if i <= 0 {
        j == 0
    } else if is_punctuation(display[i - 1]) {
        pairs_off(display, i - 1, key, j)
    } else {
        j > 0 && is_alnum(key[j - 1]) && to_lower(display[i - 1]) == to_lower(key[j - 1])
            && pairs_off(display, i - 1, key, j - 1)
    }
}

/// What `pairs_off` decides for two prefixes is `same_name` of those prefixes.
pub proof fn lemma_pairs_off_prefix(display: Seq<char>, i: int, key: Seq<char>, j: int)
    requires
        0 <= i <= display.len(),
        0 <= j <= key.len(),
        pairs_off(display, i, key, j),
    ensures
        same_name(display.take(i), key.take(j)),
        forall|k: int| 0 <= k < j ==> is_alnum(#[trigger] key[k]),
    decreases i,
{
    reveal(Seq::filter);
    if i == 0 {
        assert(lowered(stripped(display.take(0))) =~= lowered(key.take(0)));
    } else {
        let head = display.take(i);
        assert(head.drop_last() =~= display.take(i - 1));
        assert(head.last() == display[i - 1]);
        if is_punctuation(display[i - 1]) {
            lemma_pairs_off_prefix(display, i - 1, key, j);
            assert(stripped(head) == stripped(display.take(i - 1)));
        } else {
            lemma_pairs_off_prefix(display, i - 1, key, j - 1);
            let shorter = stripped(display.take(i - 1));
            assert(stripped(head) == shorter.push(display[i - 1]));
            assert(lowered(shorter.push(display[i - 1])) =~= lowered(shorter).push(
                to_lower(display[i - 1]),
            ));
            assert(lowered(key.take(j)) =~= lowered(key.take(j - 1)).push(to_lower(key[j - 1])));
            assert forall|k: int| 0 <= k < j implies is_alnum(#[trigger] key[k]) by {
                if k < j - 1 {
                    assert(is_alnum(key[k]));
                }
            }
        }
    }
}

/// A display name that pairs off with a non-empty key writes the same name
/// as the key, and the key is well formed and holds no mark.
pub proof fn lemma_pairs_off(display: Seq<char>, key: Seq<char>)
    requires
        key.len() > 0,
        pairs_off(display, display.len() as int, key, key.len() as int),
    ensures
        same_name(display, key),
        is_key(key),
        is_ascii_chars(key),
        !is_marked(key),
{
    lemma_pairs_off_prefix(display, display.len() as int, key, key.len() as int);
    assert(display.take(display.len() as int) =~= display);
    assert(key.take(key.len() as int) =~= key);
    lemma_key_is_ascii(key);
    lemma_marked_is_no_key(key);
}

/// The upstream map data writes a question mark where it could not write a
/// letter. A name that holds one is marked: the catalogue keeps it as the
/// data gives it, and it is no well-formed key.
pub open spec fn is_marked(s: Seq<char>) -> bool {
    s.contains('?')
}

/// A marked name is no well-formed key, and no display name writes the
/// same name as a marked key does: the mark is punctuation, which the
/// display name is compared without.
pub proof fn lemma_marked_is_no_key(key: Seq<char>)
    ensures
        is_marked(key) ==> !is_key(key),
        forall|display: Seq<char>| is_marked(key) ==> !same_name(display, key),
{
    if is_marked(key) {
        let i = choose|i: int| 0 <= i < key.len() && key[i] == '?';
        assert(!is_alnum(key[i]));
        assert forall|display: Seq<char>| !same_name(display, key) by {
            let kept = stripped(display);
            if lowered(kept) == lowered(key) {
                assert(lowered(kept).len() == kept.len() && lowered(key).len() == key.len());
                assert(lowered(key)[i] == to_lower(key[i]));
                assert(lowered(kept)[i] == to_lower(kept[i]));
                assert(kept[i] == '?');
                assert(kept.contains(kept[i]));
                kept_is_not_punctuation(display, kept[i]);
            }
        }
    }
}

/// What `stripped` keeps is no space and no punctuation mark.
proof fn kept_is_not_punctuation(s: Seq<char>, c: char)
    requires
        stripped(s).contains(c),
    ensures
        !is_punctuation(c),
    decreases s.len(),
{
    reveal(Seq::filter);
    if s.len() > 0 {
        let before = stripped(s.drop_last());
        if before.contains(c) {
            kept_is_not_punctuation(s.drop_last(), c);
        } else {
            let i = choose|i: int| 0 <= i < stripped(s).len() && stripped(s)[i] == c;
            if is_punctuation(s.last()) {
                assert(stripped(s) == before);
            } else {
                assert(stripped(s) == before.push(s.last()));
                if i < before.len() {
                    assert(before[i] == c);
                }
            }
        }
    }
}

/// As `pairs_off`, for a key that may be marked: punctuation is skipped in
/// `key` as it is in `display`, and every other character of `key` is a
/// letter or digit.
pub open spec fn pairs_off_marked(display: Seq<char>, i: int, key: Seq<char>, j: int) -> bool
    decreases i + j,
{
    if i < 0 || j < 0 {
        false
    } else if i > 0 && is_punctuation(display[i - 1]) {
        pairs_off_marked(display, i - 1, key, j)
    } else if j > 0 && is_punctuation(key[j - 1]) {
        pairs_off_marked(display, i, key, j - 1)
    } else if i == 0 || j == 0 {
        i == 0 && j == 0
    } else {
        is_alnum(key[j - 1]) && to_lower(display[i - 1]) == to_lower(key[j - 1])
            && pairs_off_marked(display, i - 1, key, j - 1)
    }
}

/// What `pairs_off_marked` decides for two prefixes: without their
/// punctuation they write the same name, and the prefix of the key holds
/// letters, digits and punctuation only.
pub proof fn lemma_pairs_off_marked_prefix(display: Seq<char>, i: int, key: Seq<char>, j: int)
    requires
        0 <= i <= display.len(),
        0 <= j <= key.len(),
        pairs_off_marked(display, i, key, j),
    ensures
        same_name(display.take(i), stripped(key.take(j))),
        forall|k: int| 0 <= k < j ==> is_alnum(#[trigger] key[k]) || is_punctuation(key[k]),
    decreases i + j,
{
    reveal(Seq::filter);
    let head = display.take(i);
    let tail = key.take(j);
    if i > 0 {
        assert(head.drop_last() =~= display.take(i - 1));
        assert(head.last() == display[i - 1]);
    }
    if j > 0 {
        assert(tail.drop_last() =~= key.take(j - 1));
        assert(tail.last() == key[j - 1]);
    }
    if i > 0 && is_punctuation(display[i - 1]) {
        lemma_pairs_off_marked_prefix(display, i - 1, key, j);
        assert(stripped(head) == stripped(display.take(i - 1)));
    } else if j > 0 && is_punctuation(key[j - 1]) {
        lemma_pairs_off_marked_prefix(display, i, key, j - 1);
        assert(stripped(tail) == stripped(key.take(j - 1)));
        assert forall|k: int| 0 <= k < j implies is_alnum(#[trigger] key[k]) || is_punctuation(
            key[k],
        ) by {
            if k < j - 1 {
                assert(is_alnum(key[k]) || is_punctuation(key[k]));
            }
        }
    } else if i == 0 || j == 0 {
        assert(stripped(head) =~= Seq::<char>::empty());
        assert(stripped(tail) =~= Seq::<char>::empty());
        assert(lowered(stripped(head)) =~= lowered(stripped(tail)));
    } else {
        lemma_pairs_off_marked_prefix(display, i - 1, key, j - 1);
        let shorter = stripped(display.take(i - 1));
        let briefer = stripped(key.take(j - 1));
        assert(stripped(head) == shorter.push(display[i - 1]));
        assert(stripped(tail) == briefer.push(key[j - 1]));
        assert(lowered(shorter.push(display[i - 1])) =~= lowered(shorter).push(
            to_lower(display[i - 1]),
        ));
        assert(lowered(briefer.push(key[j - 1])) =~= lowered(briefer).push(to_lower(key[j - 1])));
        assert forall|k: int| 0 <= k < j implies is_alnum(#[trigger] key[k]) || is_punctuation(
            key[k],
        ) by {
            if k < j - 1 {
                assert(is_alnum(key[k]) || is_punctuation(key[k]));
            }
        }
    }
}

/// A display name that pairs off with a key that may be marked writes the
/// same name as the key does without its marks, and the key holds ASCII
/// characters only.
pub proof fn lemma_pairs_off_marked(display: Seq<char>, key: Seq<char>)
    requires
        pairs_off_marked(display, display.len() as int, key, key.len() as int),
    ensures
        same_name(display, stripped(key)),
        is_ascii_chars(key),
{
    lemma_pairs_off_marked_prefix(display, display.len() as int, key, key.len() as int);
    assert(display.take(display.len() as int) =~= display);
    assert(key.take(key.len() as int) =~= key);
    assert forall|i: int| 0 <= i < key.len() implies '\0' <= #[trigger] key[i] <= '\u{7f}' by {
        assert(is_alnum(key[i]) || is_punctuation(key[i]));
    }
}

/// A key holds ASCII characters only.
pub proof fn lemma_key_is_ascii(key: Seq<char>)
    requires
        is_key(key),
    ensures
        is_ascii_chars(key),
{
    assert forall|i: int| 0 <= i < key.len() implies '\0' <= #[trigger] key[i] <= '\u{7f}' by {
        assert(is_alnum(key[i]));
    }
}

/// The name that addresses a location from outside: the region's name, two
/// colons, the location's key.
pub open spec fn full_name(region: Seq<char>, key: Seq<char>) -> Seq<char> {
    region + "::"@ + key
}

/// A full name is read in one way only: two full names whose regions are keys
/// are equal only if both parts are.
pub proof fn lemma_full_name_injective(
    region_a: Seq<char>,
    key_a: Seq<char>,
    region_b: Seq<char>,
    key_b: Seq<char>,
)
    requires
        is_key(region_a),
        is_key(region_b),
        full_name(region_a, key_a) == full_name(region_b, key_b),
    ensures
        region_a == region_b,
        key_a == key_b,
{
    reveal_strlit("::");
    let a = full_name(region_a, key_a);
    let b = full_name(region_b, key_b);
    let m = region_a.len() as int;
    let n = region_b.len() as int;
    assert(a[m] == ':');
    assert(b[n] == ':');
    if m < n {
        assert(b[m] == region_b[m]);
        assert(is_alnum(region_b[m]));
    } else if n < m {
        assert(a[n] == region_a[n]);
        assert(is_alnum(region_a[n]));
    }
    assert(region_a =~= a.subrange(0, m));
    assert(region_b =~= b.subrange(0, n));
    assert(key_a =~= a.subrange(m + 2, a.len() as int));
    assert(key_b =~= b.subrange(n + 2, b.len() as int));
}

/// A full name made of a region's name, which is a key, and of an ASCII key
/// holds ASCII characters only.
pub proof fn lemma_full_name_is_ascii(region: Seq<char>, key: Seq<char>)
    requires
        is_key(region),
        is_ascii_chars(key),
    ensures
        is_ascii_chars(full_name(region, key)),
{
    reveal_strlit("::");
    lemma_key_is_ascii(region);
    let name = full_name(region, key);
    assert forall|i: int| 0 <= i < name.len() implies '\0' <= #[trigger] name[i] <= '\u{7f}' by {
        if i < region.len() {
            assert(name[i] == region[i]);
        } else if i < region.len() + 2 {
            assert(name[i] == ':');
        } else {
            assert(name[i] == key[i - region.len() - 2]);
        }
    }
}

/// Whether two strings hold the same characters.
pub fn str_eq(a: &str, b: &str) -> (same: bool)
    ensures
        same == (a@ == b@),
{
    let x = a.as_bytes();
    let y = b.as_bytes();
    proof {
        // Equal encodings decode to equal strings.
        encode_utf8_decode_utf8(a@);
        encode_utf8_decode_utf8(b@);
    }
    if x.len() != y.len() {
        return false;
    }
    let mut i: usize = 0;
    while i < x.len()
        invariant
            i <= x.len(),
            x.len() == y.len(),
            x@ == a.spec_bytes(),
            y@ == b.spec_bytes(),
            forall|j: int| 0 <= j < i ==> x@[j] == y@[j],
        decreases x.len() - i,
    {
        if x[i] != y[i] {
            return false;
        }
        i += 1;
    }
    assert(x@ =~= y@);
    true
}

/// The full name of the location with the API key `key` in the region
/// called `region`.
pub fn compose(region: &str, key: &str) -> (name: String)
    ensures
        name@ == full_name(region@, key@),
{
    let mut name = String::from_str(region);
    name.append("::");
    name.append(key);
    name
}

/// Reads `name` as a full name in the region called `region` and returns
/// the location's key: what follows `region` and the two colons. Names that
/// hold anything but ASCII are not read, since no key of the catalogue does.
pub fn local_key<'a>(name: &'a str, region: &str) -> (key: Option<&'a str>)
    ensures
        match key {
            Some(k) => name@ == full_name(region@, k@),
            None => !is_ascii_chars(name@) || !(region@ + "::"@).is_prefix_of(name@),
        },
{
    broadcast use is_ascii_spec_bytes;

    proof {
        reveal_strlit("::");
    }
    if !name.is_ascii() {
        return None;
    }
    if !region.is_ascii() {
        proof {
            if (region@ + "::"@).is_prefix_of(name@) {
                assert forall|i: int| 0 <= i < region@.len() implies '\0' <= #[trigger] region@[i]
                    <= '\u{7f}' by {
                    assert(region@[i] == (region@ + "::"@)[i]);
                    assert(region@[i] == name@[i]);
                }
            }
        }
        return None;
    }
    let n = name.as_bytes().len();
    let h = region.as_bytes().len();
    assert(n == name@.len() && h == region@.len());
    if n < 2 || n - 2 < h {
        return None;
    }
    let head = name.substring_ascii(0, h);
    if !str_eq(head, region) {
        proof {
            if (region@ + "::"@).is_prefix_of(name@) {
                assert(name@.subrange(0, h as int) =~= region@);
            }
        }
        return None;
    }
    let first = name.get_ascii(h);
    let second = name.get_ascii(h + 1);
    if first != 58 || second != 58 {
        proof {
            if (region@ + "::"@).is_prefix_of(name@) {
                assert(name@[h as int] == (region@ + "::"@)[h as int]);
                assert(name@[h + 1] == (region@ + "::"@)[h + 1]);
            }
        }
        return None;
    }
    let key = name.substring_ascii(h + 2, n);
    proof {
        is_ascii_chars_nat_bound(name@);
        assert(name@[h as int] as nat == 58);
        assert(name@[h + 1] as nat == 58);
        assert(name@[h as int] == ':');
        assert(name@[h + 1] == ':');
        assert(name@ =~= full_name(region@, key@));
    }
    Some(key)
}

} // verus!
