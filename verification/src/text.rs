//! Texts: joining, trimming and comparing them as sequences of characters.

use vstd::prelude::*;

verus! {

/// `String::push` of the standard library appends the given character to the
/// end of the text and leaves what was there unchanged.
pub assume_specification[ String::push ](s: &mut String, c: char)
    ensures
        final(s)@ == old(s)@.push(c),
;

/// The parts in order, with `separator` between each two neighbours.
pub open spec fn joined(parts: Seq<Seq<char>>, separator: Seq<char>) -> Seq<char>
    decreases parts.len(),
{
    if parts.len() == 0 {
        Seq::empty()
    } else if parts.len() == 1 {
        parts[0]
    } else {
        joined(parts.drop_last(), separator) + separator + parts.last()
    }
}

/// Joining peels off at the front as it does at the back.
pub proof fn lemma_joined_front(parts: Seq<Seq<char>>, separator: Seq<char>)
    requires
        parts.len() >= 2,
    ensures
        joined(parts, separator) == parts[0] + separator + joined(parts.drop_first(), separator),
    decreases parts.len(),
{
    if parts.len() == 2 {
        assert(parts.drop_last() =~= seq![parts[0]]);
        assert(parts.drop_first() =~= seq![parts[1]]);
        assert(joined(parts.drop_last(), separator) == parts[0]);
        assert(joined(parts.drop_first(), separator) == parts[1]);
    } else {
        lemma_joined_front(parts.drop_last(), separator);
        let rest = parts.drop_first();
        assert(rest.drop_last() =~= parts.drop_last().drop_first());
        assert(rest.last() == parts.last());
        assert(joined(parts, separator) =~= parts[0] + separator + joined(rest, separator));
    }
}

/// Joins the parts, `separator` between each two.
pub fn join(parts: &[String], separator: &str) -> (result: String)
    ensures
        result@ == joined(parts.deep_view(), separator@),
{
    let mut result = String::new();
    let ghost all = parts.deep_view();
    assert(all.take(0) =~= Seq::<Seq<char>>::empty());
    for i in 0..parts.len()
        invariant
            all == parts.deep_view(),
            result@ == joined(all.take(i as int), separator@),
    {
        if i != 0 {
            result.append(separator);
        }
        result.append(parts[i].as_str());
        proof {
            let next = all.take(i + 1);
            assert(next.drop_last() =~= all.take(i as int));
            assert(next.last() == parts[i as int]@);
            if i == 0 {
                assert(result@ =~= next[0]);
            }
        }
    }
    assert(all.take(parts.len() as int) =~= all);
    result
}

/// Whether `c` has the Unicode property `White_Space`.
pub open spec fn is_white_space(c: char) -> bool {
    ||| '\u{9}' <= c <= '\u{d}'
    ||| c == '\u{20}'
    ||| c == '\u{85}'
    ||| c == '\u{a0}'
    ||| c == '\u{1680}'
    ||| '\u{2000}' <= c <= '\u{200a}'
    ||| c == '\u{2028}'
    ||| c == '\u{2029}'
    ||| c == '\u{202f}'
    ||| c == '\u{205f}'
    ||| c == '\u{3000}'
}

/// Whether `c` has the Unicode property `White_Space`.
pub fn white_space(c: char) -> (result: bool)
    ensures
        result == is_white_space(c),
{
    ('\u{9}' <= c && c <= '\u{d}') || c == '\u{20}' || c == '\u{85}' || c == '\u{a0}' || c
        == '\u{1680}' || ('\u{2000}' <= c && c <= '\u{200a}') || c == '\u{2028}' || c == '\u{2029}'
        || c == '\u{202f}' || c == '\u{205f}' || c == '\u{3000}'
}

/// `text` without the white space at its two ends.
pub open spec fn trimmed(text: Seq<char>) -> Seq<char>
    decreases text.len(),
{
    if text.len() == 0 {
        text
    } else if is_white_space(text.first()) {
        trimmed(text.drop_first())
    } else if is_white_space(text.last()) {
        trimmed(text.drop_last())
    } else {
        text
    }
}

/// The characters of `text`, one by one.
pub fn characters(text: &str) -> (result: Vec<char>)
    ensures
        result@ == text@,
{
    let mut result: Vec<char> = Vec::new();
    for c in it: text.chars()
        invariant
            it.seq() == text@,
            result@ == text@.take(it.index()),
    {
        result.push(c);
    }
    assert(text@.take(text@.len() as int) =~= text@);
    result
}

/// `text` without the white space at its two ends.
pub fn trim(text: &str) -> (result: String)
    ensures
        result@ == trimmed(text@),
{
    let all = characters(text);
    let mut from: usize = 0;
    let mut to: usize = all.len();
    assert(all@.subrange(0, all@.len() as int) =~= all@);
    while from < to && white_space(all[from])
        invariant
            from <= to == all.len(),
            trimmed(all@) == trimmed(all@.subrange(from as int, to as int)),
        decreases to - from,
    {
        proof {
            let rest = all@.subrange(from as int, to as int);
            assert(rest.drop_first() =~= all@.subrange(from + 1, to as int));
        }
        from = from + 1;
    }
    while from < to && white_space(all[to - 1])
        invariant
            from <= to <= all.len(),
            from < to ==> !is_white_space(all[from as int]),
            trimmed(all@) == trimmed(all@.subrange(from as int, to as int)),
        decreases to - from,
    {
        proof {
            let rest = all@.subrange(from as int, to as int);
            assert(rest.first() == all[from as int]);
            assert(rest.drop_last() =~= all@.subrange(from as int, to - 1));
        }
        to = to - 1;
    }
    let mut result = String::new();
    for i in from..to
        invariant
            from <= to <= all.len(),
            result@ == all@.subrange(from as int, i as int),
    {
        result.push(all[i]);
        assert(all@.subrange(from as int, i as int).push(all[i as int]) =~= all@.subrange(
            from as int,
            i + 1,
        ));
    }
    proof {
        let kept = all@.subrange(from as int, to as int);
        if kept.len() > 0 {
            assert(kept.first() == all[from as int]);
            assert(kept.last() == all[to - 1]);
        }
    }
    result
}

/// Whether two texts are the same.
pub fn same_text(a: &str, b: &str) -> (result: bool)
    ensures
        result == (a@ == b@),
{
    a.to_owned() == b.to_owned()
}

/// A copy of a list of texts.
pub fn copy_texts(list: &Vec<String>) -> (result: Vec<String>)
    ensures
        result@ == list@,
        result.deep_view() == list.deep_view(),
{
    list.clone()
}

/// A copy of an optional text.
pub fn copy_option(text: &Option<String>) -> (result: Option<String>)
    ensures
        result == *text,
{
    match text {
        Some(t) => Some(t.clone()),
        None => None,
    }
}

} // verus!
