//! What holds of texts, paths and lists of arguments.

use crate::attribute::{candidates, escaped, quoted, rendered};
use crate::os_text::{displayed, encoded, lossy_text, path_joined};
use crate::text::{is_white_space, joined, trimmed};
use vstd::prelude::*;
use vstd::utf8::{decode_utf8, encode_utf8, valid_utf8};

verus! {

/// Law: nothing joined is nothing, and one part joined is the part.
pub proof fn law_few_parts_are_joined_as_they_are(part: Seq<char>, separator: Seq<char>)
    ensures
        joined(seq![], separator) == Seq::<char>::empty(),
        joined(seq![part], separator) == part,
{
}

/// Law: parts can be joined in two goes: the separator stands once where the two
/// lists meet.
pub proof fn law_joining_in_two_goes(
    a: Seq<Seq<char>>,
    b: Seq<Seq<char>>,
    separator: Seq<char>,
)
    requires
        a.len() > 0,
        b.len() > 0,
    ensures
        joined(a + b, separator) == joined(a, separator) + separator + joined(b, separator),
    decreases b.len(),
{
    let all = a + b;
    assert(all.last() == b.last());
    assert(all.drop_last() =~= a + b.drop_last());
    if b.len() == 1 {
        assert(a + b.drop_last() =~= a);
    } else {
        law_joining_in_two_goes(a, b.drop_last(), separator);
        assert(joined(all, separator) =~= joined(a, separator) + separator + joined(b, separator));
    }
}

/// Law: trimming takes white space off the two ends and nothing else: what is left
/// is one stretch of the text, all before it and all behind it is white space, and
/// it neither begins nor ends with any.
pub proof fn law_trimming_leaves_one_stretch(text: Seq<char>) -> (range: (int, int))
    ensures
        0 <= range.0 <= range.1 <= text.len(),
        trimmed(text) == text.subrange(range.0, range.1),
        forall|i: int| 0 <= i < range.0 ==> is_white_space(#[trigger] text[i]),
        forall|i: int| range.1 <= i < text.len() ==> is_white_space(#[trigger] text[i]),
        range.0 < range.1 ==> !is_white_space(text[range.0]) && !is_white_space(
            text[range.1 - 1],
        ),
    decreases text.len(),
{
    if text.len() == 0 {
        assert(text.subrange(0, 0) =~= text);
        (0, 0)
    } else if is_white_space(text.first()) {
        let rest = text.drop_first();
        let inner = law_trimming_leaves_one_stretch(rest);
        assert(rest.subrange(inner.0, inner.1) =~= text.subrange(inner.0 + 1, inner.1 + 1));
        assert forall|i: int| 0 <= i < inner.0 + 1 implies is_white_space(#[trigger] text[i]) by {
            if i > 0 {
                assert(rest[i - 1] == text[i]);
            }
        }
        assert forall|i: int| inner.1 + 1 <= i < text.len() implies is_white_space(
            #[trigger] text[i],
        ) by {
            assert(rest[i - 1] == text[i]);
        }
        (inner.0 + 1, inner.1 + 1)
    } else if is_white_space(text.last()) {
        let rest = text.drop_last();
        let inner = law_trimming_leaves_one_stretch(rest);
        assert(rest.subrange(inner.0, inner.1) =~= text.subrange(inner.0, inner.1));
        assert forall|i: int| 0 <= i < inner.0 implies is_white_space(#[trigger] text[i]) by {
            assert(rest[i] == text[i]);
        }
        assert forall|i: int| inner.1 <= i < text.len() implies is_white_space(
            #[trigger] text[i],
        ) by {
            if i < rest.len() {
                assert(rest[i] == text[i]);
            }
        }
        inner
    } else {
        assert(text.subrange(0, text.len() as int) =~= text);
        (0, text.len() as int)
    }
}

/// Law: a text is shown as it is, and only bytes that are no text are shown as
/// something else.
pub proof fn law_text_is_shown_as_it_is(text: Seq<char>, bytes: Seq<u8>)
    ensures
        displayed(encode_utf8(text)) == text,
        valid_utf8(bytes) ==> encode_utf8(displayed(bytes)) == bytes,
        !valid_utf8(bytes) ==> displayed(bytes) == lossy_text(bytes),
{
    broadcast use {
        vstd::utf8::encode_utf8_valid_utf8,
        vstd::utf8::encode_utf8_decode_utf8,
        vstd::utf8::decode_utf8_encode_utf8,
    };

}

/// Law: a path that is not absolute lies below its directory: the joined path begins
/// with the directory and ends with the path, and between them there is one slash,
/// which may be the directory's own.
pub proof fn law_relative_path_lies_below(base: Seq<u8>, tail: Seq<u8>)
    requires
        tail.len() > 0 ==> tail[0] != 0x2fu8,
    ensures
        base.is_prefix_of(path_joined(base, tail)),
        tail.is_suffix_of(path_joined(base, tail)),
        base.len() > 0 ==> path_joined(base, tail)[path_joined(base, tail).len() - tail.len() - 1]
            == 0x2fu8,
        path_joined(base, tail).len() == base.len() + tail.len() + (if base.len() == 0
            || base.last() == 0x2fu8 {
            0int
        } else {
            1
        }),
{
}

/// Law: an absolute path is the same from every directory.
pub proof fn law_absolute_path_stands_alone(base: Seq<u8>, tail: Seq<u8>)
    requires
        tail.len() > 0,
        tail[0] == 0x2fu8,
    ensures
        path_joined(base, tail) == tail,
{
}

/// Law: in a list that is encoded each text has its own place, and can be read again
/// there.
pub proof fn law_encoded_texts_can_be_read_again(texts: Seq<Seq<char>>)
    ensures
        encoded(texts).len() == texts.len(),
        forall|i: int|
            0 <= i < texts.len() ==> valid_utf8(#[trigger] encoded(texts)[i]) && decode_utf8(
                encoded(texts)[i],
            ) == texts[i],
{
    broadcast use {vstd::utf8::encode_utf8_valid_utf8, vstd::utf8::encode_utf8_decode_utf8};

}

/// Law: two texts are encoded alike only if they are the same.
pub proof fn law_encoding_tells_texts_apart(a: Seq<char>, b: Seq<char>)
    requires
        encode_utf8(a) == encode_utf8(b),
    ensures
        a == b,
{
    broadcast use vstd::utf8::encode_utf8_decode_utf8;

    assert(decode_utf8(encode_utf8(a)) == decode_utf8(encode_utf8(b)));
}

/// Law: without a name, the host's is looked for and then `default`, and nothing
/// else; the name of the host is one segment, whatever it holds.
pub proof fn law_candidates_are_the_host_and_default(host: Seq<char>)
    ensures
        candidates(host).len() == 2,
        candidates(host)[0].len() == 1,
        candidates(host)[0][0] == host,
        candidates(host)[1].len() == 1,
        candidates(host)[1][0] == "default"@,
{
}

/// Law: in quotes a backslash and a quote get a backslash before them, and every
/// other character stands for itself.
pub proof fn law_one_character_in_quotes(c: char)
    ensures
        c == '\\' || c == '"' ==> quoted(seq![c]) == seq!['"', '\\', c, '"'],
        c != '\\' && c != '"' ==> quoted(seq![c]) == seq!['"', c, '"'],
        quoted(seq![]) == seq!['"', '"'],
{
    assert(seq![c].drop_last() =~= Seq::<char>::empty());
    reveal_with_fuel(escaped, 2);
    if c == '\\' || c == '"' {
        assert(quoted(seq![c]) =~= seq!['"', '\\', c, '"']);
    } else {
        assert(quoted(seq![c]) =~= seq!['"', c, '"']);
    }
    assert(quoted(seq![]) =~= seq!['"', '"']);
}

/// Escaping goes character by character.
proof fn lemma_escaping_in_two_goes(a: Seq<char>, b: Seq<char>)
    ensures
        escaped(a + b) == escaped(a) + escaped(b),
    decreases b.len(),
{
    if b.len() == 0 {
        assert(a + b =~= a);
        assert(escaped(a) + escaped(b) =~= escaped(a));
    } else {
        assert((a + b).drop_last() =~= a + b.drop_last());
        lemma_escaping_in_two_goes(a, b.drop_last());
        assert(escaped(a + b) =~= escaped(a) + escaped(b));
    }
}

/// Law: what stands between the quotes can be written in two goes: how a character is
/// written does not depend on the others.
pub proof fn law_quoting_in_two_goes(a: Seq<char>, b: Seq<char>)
    ensures
        quoted(a + b) == quoted(a).drop_last() + quoted(b).drop_first(),
{
    lemma_escaping_in_two_goes(a, b);
    assert(quoted(a + b) =~= quoted(a).drop_last() + quoted(b).drop_first());
}

/// Law: a path of one segment is written as the segment in quotes, and a longer one
/// as its two parts with a dot between them, wherever it is cut.
pub proof fn law_rendering_in_two_goes(
    segment: Seq<char>,
    a: Seq<Seq<char>>,
    b: Seq<Seq<char>>,
)
    ensures
        rendered(seq![]) == Seq::<char>::empty(),
        rendered(seq![segment]) == quoted(segment),
        a.len() > 0 && b.len() > 0 ==> rendered(a + b) == rendered(a) + seq!['.'] + rendered(b),
{
    let quote = |s: Seq<char>| quoted(s);
    assert(Seq::<Seq<char>>::empty().map_values(quote) =~= seq![]);
    assert(seq![segment].map_values(quote) =~= seq![quoted(segment)]);
    if a.len() > 0 && b.len() > 0 {
        assert((a + b).map_values(quote) =~= a.map_values(quote) + b.map_values(quote));
        law_joining_in_two_goes(a.map_values(quote), b.map_values(quote), seq!['.']);
    }
}

} // verus!
