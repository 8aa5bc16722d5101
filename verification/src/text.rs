//! Texts by their characters: comparing them, cutting a dotted path into its
//! keys, joining texts, and keeping each text of a list once.

use vstd::prelude::*;
use vstd::string::*;
use vstd::utf8::*;

verus! {

broadcast use vstd::string::group_string_axioms;

/// Two encodings are equal exactly when the texts are.
pub proof fn lemma_encoding_is_injective(a: Seq<char>, b: Seq<char>)
    ensures
        (encode_utf8(a) == encode_utf8(b)) <==> (a == b),
{
    encode_utf8_decode_utf8(a);
    encode_utf8_decode_utf8(b);
}

/// Whether `a` and `b` hold the same characters.
pub fn same_text(a: &str, b: &str) -> (same: bool)
    ensures
        same == (a@ == b@),
{
    proof {
        lemma_encoding_is_injective(a@, b@);
    }
    let left = a.as_bytes();
    let right = b.as_bytes();
    if left.len() != right.len() {
        return false;
    }
    let mut i: usize = 0;
    while i < left.len()
        invariant
            i <= left.len(),
            left.len() == right.len(),
            left@ == encode_utf8(a@),
            right@ == encode_utf8(b@),
            forall|k: int| 0 <= k < i ==> left@[k] == right@[k],
        decreases left.len() - i,
    {
        if left[i] != right[i] {
            return false;
        }
        i += 1;
    }
    assert(left@ =~= right@);
    true
}

/// The characters of each of `strings`.
pub open spec fn texts(strings: Seq<String>) -> Seq<Seq<char>> {
    Seq::new(strings.len(), |i: int| strings[i]@)
}

/// The characters of a string that may be missing.
pub open spec fn optional_text(string: Option<String>) -> Option<Seq<char>> {
    match string {
        Some(s) => Some(s@),
        None => None,
    }
}

/// The characters of `text`, one by one.
pub fn chars_of(text: &str) -> (chars: Vec<char>)
    ensures
        chars@ == text@,
{
    let mut chars: Vec<char> = Vec::new();
    for c in iter: text.chars()
        invariant
            iter.seq() == text@,
            chars@ == text@.take(iter.index()),
    {
        chars.push(c);
        assert(text@.take(iter.index() + 1) =~= text@.take(iter.index()).push(c));
    }
    assert(text@.take(text@.len() as int) =~= text@);
    chars
}

/// Where the first dot of `path` stands; its length where it has none.
pub open spec fn first_dot(path: Seq<char>) -> int
    decreases path.len(),
{
    if path.len() == 0 || path[0] == '.' {
        0
    } else {
        1 + first_dot(path.drop_first())
    }
}

/// The keys of a dotted path: what stands before its first dot, between
/// each dot and the next, and behind the last. A path without a dot is one
/// key; so is the empty path.
pub open spec fn dotted_keys(path: Seq<char>) -> Seq<Seq<char>>
    decreases path.len(),
{
    let end = first_dot(path);
    if 0 <= end < path.len() {
        seq![path.take(end)] + dotted_keys(path.skip(end + 1))
    } else {
        seq![path]
    }
}

/// The first dot stands behind every character that is none, and not
/// behind the end.
pub proof fn lemma_first_dot(path: Seq<char>)
    ensures
        0 <= first_dot(path) <= path.len(),
        first_dot(path) < path.len() ==> path[first_dot(path)] == '.',
        forall|k: int| 0 <= k < first_dot(path) ==> path[k] != '.',
    decreases path.len(),
{
    if path.len() == 0 || path[0] == '.' {
    } else {
        let rest = path.drop_first();
        lemma_first_dot(rest);
        assert forall|k: int| 0 <= k < first_dot(path) implies path[k] != '.' by {
            if k > 0 {
                assert(path[k] == rest[k - 1]);
            }
        }
    }
}

/// A place that has no dot before it, and is a dot or the end, is where
/// the first dot stands.
pub proof fn lemma_first_dot_is(path: Seq<char>, end: int)
    requires
        0 <= end <= path.len(),
        forall|k: int| 0 <= k < end ==> path[k] != '.',
        end < path.len() ==> path[end] == '.',
    ensures
        first_dot(path) == end,
{
    lemma_first_dot(path);
    let found = first_dot(path);
    if found < end {
        assert(path[found] == '.');
    } else if end < found {
        assert(path[end] == '.');
    }
}

/// No key of a dotted path holds a dot.
pub proof fn lemma_keys_hold_no_dot(path: Seq<char>)
    ensures
        forall|i: int, k: int|
            0 <= i < dotted_keys(path).len() && 0 <= k < dotted_keys(path)[i].len()
                ==> dotted_keys(path)[i][k] != '.',
    decreases path.len(),
{
    lemma_first_dot(path);
    let end = first_dot(path);
    if end < path.len() {
        let rest = path.skip(end + 1);
        lemma_keys_hold_no_dot(rest);
        let keys = dotted_keys(path);
        assert forall|i: int, k: int|
            0 <= i < keys.len() && 0 <= k < keys[i].len() implies keys[i][k] != '.' by {
            if i > 0 {
                assert(keys[i] == dotted_keys(rest)[i - 1]);
            }
        }
    }
}

/// Cuts a dotted path into its keys.
pub fn split_dots(path: &str) -> (keys: Vec<String>)
    ensures
        texts(keys@) == dotted_keys(path@),
{
    let chars = chars_of(path);
    let mut keys: Vec<String> = Vec::new();
    let mut start: usize = 0;
    let mut i: usize = 0;
    assert(path@.skip(0) =~= path@);
    assert(texts(keys@) + dotted_keys(path@) =~= dotted_keys(path@));
    while i < chars.len()
        invariant
            chars@ == path@,
            start <= i <= chars.len(),
            forall|k: int| start <= k < i ==> chars@[k] != '.',
            texts(keys@) + dotted_keys(path@.skip(start as int)) == dotted_keys(path@),
        decreases chars.len() - i,
    {
        if chars[i] == '.' {
            let ghost rest = path@.skip(start as int);
            let ghost before = texts(keys@);
            proof {
                lemma_first_dot_is(rest, i - start);
                assert(rest.take(i - start) =~= path@.subrange(start as int, i as int));
                assert(rest.skip(i - start + 1) =~= path@.skip(i as int + 1));
            }
            keys.push(String::from_str(path.substring_char(start, i)));
            proof {
                assert(texts(keys@) =~= before + seq![rest.take(i - start)]);
                assert(texts(keys@) + dotted_keys(path@.skip(i as int + 1)) =~= before
                    + dotted_keys(rest));
            }
            start = i + 1;
        }
        i += 1;
    }
    let ghost rest = path@.skip(start as int);
    let ghost before = texts(keys@);
    proof {
        lemma_first_dot_is(rest, rest.len() as int);
        assert(rest =~= path@.subrange(start as int, chars.len() as int));
    }
    keys.push(String::from_str(path.substring_char(start, chars.len())));
    proof {
        assert(texts(keys@) =~= before + seq![rest]);
    }
    keys
}

/// `texts` without the repeats: each text once, where it stands first.
pub open spec fn distinct(texts: Seq<Seq<char>>) -> Seq<Seq<char>>
    decreases texts.len(),
{
    if texts.len() == 0 {
        Seq::empty()
    } else {
        let front = distinct(texts.drop_last());
        if front.contains(texts.last()) {
            front
        } else {
            front.push(texts.last())
        }
    }
}

/// Whether no text stands twice in `texts`.
pub open spec fn no_repeats(texts: Seq<Seq<char>>) -> bool {
    forall|i: int, j: int| 0 <= i < j < texts.len() ==> texts[i] != texts[j]
}

/// `distinct` holds no text twice, and holds exactly the texts it was made
/// from.
pub proof fn lemma_distinct(texts: Seq<Seq<char>>)
    ensures
        no_repeats(distinct(texts)),
        forall|t: Seq<char>| distinct(texts).contains(t) <==> texts.contains(t),
    decreases texts.len(),
{
    if texts.len() > 0 {
        let front = texts.drop_last();
        lemma_distinct(front);
        let kept = distinct(front);
        let all = distinct(texts);
        assert forall|t: Seq<char>| all.contains(t) <==> texts.contains(t) by {
            if texts.contains(t) {
                let i = choose|i: int| 0 <= i < texts.len() && texts[i] == t;
                if i < texts.len() - 1 {
                    assert(front[i] == t);
                    assert(front.contains(t));
                    assert(kept.contains(t) <==> front.contains(t));
                    let k = choose|k: int| 0 <= k < kept.len() && kept[k] == t;
                    assert(all[k] == t);
                } else if !kept.contains(t) {
                    assert(all[kept.len() as int] == t);
                }
            }
            if all.contains(t) {
                let k = choose|k: int| 0 <= k < all.len() && all[k] == t;
                if k < kept.len() {
                    assert(kept[k] == t);
                    assert(kept.contains(t));
                    assert(kept.contains(t) <==> front.contains(t));
                    let i = choose|i: int| 0 <= i < front.len() && front[i] == t;
                    assert(texts[i] == t);
                } else {
                    assert(texts[texts.len() - 1] == t);
                }
            }
        }
    }
}

/// Whether one of `strings` holds the characters of `text`.
pub fn holds_text(strings: &Vec<String>, text: &str) -> (found: bool)
    ensures
        found == texts(strings@).contains(text@),
{
    let mut i: usize = 0;
    while i < strings.len()
        invariant
            i <= strings.len(),
            forall|k: int| 0 <= k < i ==> texts(strings@)[k] != text@,
        decreases strings.len() - i,
    {
        if same_text(strings[i].as_str(), text) {
            assert(texts(strings@)[i as int] == text@);
            return true;
        }
        i += 1;
    }
    false
}

/// `texts`, put together with `separator` between each two.
pub open spec fn joined(texts: Seq<Seq<char>>, separator: Seq<char>) -> Seq<char>
    decreases texts.len(),
{
    if texts.len() == 0 {
        Seq::empty()
    } else if texts.len() == 1 {
        texts[0]
    } else {
        texts[0] + separator + joined(texts.drop_first(), separator)
    }
}

/// One more text is joined on behind the separator.
pub proof fn lemma_joined_push(texts: Seq<Seq<char>>, separator: Seq<char>, text: Seq<char>)
    requires
        texts.len() > 0,
    ensures
        joined(texts.push(text), separator) == joined(texts, separator) + separator + text,
    decreases texts.len(),
{
    let longer = texts.push(text);
    if texts.len() == 1 {
        assert(longer.drop_first() =~= seq![text]);
        assert(joined(longer.drop_first(), separator) == text);
    } else {
        let rest = texts.drop_first();
        lemma_joined_push(rest, separator, text);
        assert(longer.drop_first() =~= rest.push(text));
        assert(texts[0] + separator + (joined(rest, separator) + separator + text) =~= (texts[0]
            + separator + joined(rest, separator)) + separator + text);
    }
}

/// The keys of a path, put together with dots between them, are the path.
pub proof fn lemma_keys_join_to_path(path: Seq<char>)
    ensures
        dotted_keys(path).len() >= 1,
        joined(dotted_keys(path), seq!['.']) == path,
    decreases path.len(),
{
    lemma_first_dot(path);
    let end = first_dot(path);
    if end < path.len() {
        let rest = path.skip(end + 1);
        lemma_keys_join_to_path(rest);
        let keys = dotted_keys(path);
        assert(keys.drop_first() =~= dotted_keys(rest));
        assert(path.take(end) + seq!['.'] + rest =~= path);
    }
}

/// Puts `strings` together with `separator` between each two.
pub fn join(strings: &Vec<String>, separator: &str) -> (text: String)
    ensures
        text@ == joined(texts(strings@), separator@),
{
    let mut text = String::new();
    let mut i: usize = 0;
    assert(texts(strings@).take(0) =~= Seq::empty());
    while i < strings.len()
        invariant
            i <= strings.len(),
            text@ == joined(texts(strings@).take(i as int), separator@),
        decreases strings.len() - i,
    {
        let ghost before = texts(strings@).take(i as int);
        let ghost seen = texts(strings@).take(i as int + 1);
        proof {
            assert(seen =~= before.push(strings@[i as int]@));
            if i > 0 {
                lemma_joined_push(before, separator@, strings@[i as int]@);
            }
        }
        if i > 0 {
            text.append(separator);
        }
        text.append(strings[i].as_str());
        proof {
            if i == 0 {
                assert(text@ =~= seen[0]);
            }
        }
        i += 1;
    }
    assert(texts(strings@).take(strings.len() as int) =~= texts(strings@));
    text
}

} // verus!
