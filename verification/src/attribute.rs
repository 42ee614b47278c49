//! Attribute paths: the candidates for a configuration, and how a path is
//! written in a Nix expression.

use crate::text::{characters, joined};
use vstd::prelude::*;

verus! {

/// The attribute set that holds the configurations.
pub const SYSTEM_CONFIGS: &'static str = "systemConfigs";

/// The configuration that stands in where none has the name of the host.
pub const DEFAULT_CONFIGURATION: &'static str = "default";

/// The paths to look for when no configuration was named: the literal name of
/// the host, then `default`. A name with dots in it is one segment.
pub open spec fn candidates(hostname: Seq<char>) -> Seq<Seq<Seq<char>>> {
    seq![seq![hostname], seq![DEFAULT_CONFIGURATION@]]
}

/// The paths to look for when no configuration was named, in the order in which
/// they are tried.
pub fn configuration_candidates(hostname: &str) -> (result: [Vec<String>; 2])
    ensures
        result[0].deep_view() == candidates(hostname@)[0],
        result[1].deep_view() == candidates(hostname@)[1],
{
    let result = [vec![hostname.to_owned()], vec![DEFAULT_CONFIGURATION.to_owned()]];
    assert(result[0].deep_view() =~= seq![hostname@]);
    assert(result[1].deep_view() =~= seq![DEFAULT_CONFIGURATION@]);
    result
}

/// How one character stands inside a quoted segment.
pub open spec fn escaped_char(c: char) -> Seq<char> {
    if c == '\\' || c == '"' {
        seq!['\\', c]
    } else {
        seq![c]
    }
}

/// The characters of a segment, with a backslash before each backslash and
/// before each quote.
pub open spec fn escaped(segment: Seq<char>) -> Seq<char>
    decreases segment.len(),
{
    if segment.len() == 0 {
        Seq::empty()
    } else {
        escaped(segment.drop_last()) + escaped_char(segment.last())
    }
}

/// A segment in quotes.
pub open spec fn quoted(segment: Seq<char>) -> Seq<char> {
    seq!['"'] + escaped(segment) + seq!['"']
}

/// A path as it is written in a Nix expression: its segments in quotes, with
/// dots between them.
pub open spec fn rendered(path: Seq<Seq<char>>) -> Seq<char> {
    joined(path.map_values(|s: Seq<char>| quoted(s)), seq!['.'])
}

/// Writes one segment in quotes.
fn quote(segment: &str) -> (result: String)
    ensures
        result@ == quoted(segment@),
{
    let all = characters(segment);
    let mut result = String::new();
    result.push('"');
    for i in 0..all.len()
        invariant
            all@ == segment@,
            result@ == seq!['"'] + escaped(segment@.take(i as int)),
    {
        let c = all[i];
        let ghost before = result@;
        if c == '\\' || c == '"' {
            result.push('\\');
        }
        result.push(c);
        proof {
            let next = segment@.take(i + 1);
            assert(next.drop_last() =~= segment@.take(i as int));
            assert(result@ =~= before + escaped_char(c));
            assert(result@ =~= seq!['"'] + escaped(next));
        }
    }
    result.push('"');
    assert(segment@.take(all.len() as int) =~= segment@);
    assert(result@ =~= quoted(segment@));
    result
}

/// Writes an attribute path as it stands in a Nix expression.
pub fn render_attr_path(candidate: &[String]) -> (result: String)
    ensures
        result@ == rendered(candidate.deep_view()),
{
    let mut segments: Vec<String> = Vec::new();
    for i in 0..candidate.len()
        invariant
            segments.len() == i,
            forall|j: int| 0 <= j < i ==> (#[trigger] segments[j])@ == quoted(candidate[j]@),
    {
        segments.push(quote(candidate[i].as_str()));
    }
    proof {
        reveal_strlit(".");
        assert("."@ =~= seq!['.']);
        assert(segments.deep_view() =~= candidate.deep_view().map_values(
            |s: Seq<char>| quoted(s),
        ));
    }
    crate::text::join(segments.as_slice(), ".")
}

/// Escaping peels off at the front as it does at the back.
proof fn lemma_escaped_front(segment: Seq<char>)
    requires
        segment.len() > 0,
    ensures
        escaped(segment) == escaped_char(segment.first()) + escaped(segment.drop_first()),
    decreases segment.len(),
{
    if segment.len() == 1 {
        assert(segment.drop_last() =~= Seq::<char>::empty());
        assert(segment.drop_first() =~= Seq::<char>::empty());
        assert(escaped(segment) =~= escaped_char(segment.first()) + escaped(segment.drop_first()));
    } else {
        lemma_escaped_front(segment.drop_last());
        let rest = segment.drop_first();
        assert(rest.drop_last() =~= segment.drop_last().drop_first());
        assert(escaped(segment) =~= escaped_char(segment.first()) + escaped(rest));
    }
}

/// An escaped segment ends at the first quote that no backslash escapes: what
/// stands before that quote, and what stands after it, can be read off.
proof fn lemma_escaped_prefix(a: Seq<char>, b: Seq<char>, after_a: Seq<char>, after_b: Seq<char>)
    requires
        escaped(a) + seq!['"'] + after_a == escaped(b) + seq!['"'] + after_b,
    ensures
        a == b,
        after_a == after_b,
    decreases a.len() + b.len(),
{
    let left = escaped(a) + seq!['"'] + after_a;
    let right = escaped(b) + seq!['"'] + after_b;
    if a.len() == 0 && b.len() == 0 {
        assert(a =~= b);
        assert(after_a =~= left.skip(1));
        assert(after_b =~= right.skip(1));
    } else if a.len() == 0 {
        lemma_escaped_front(b);
        assert(left[0] == '"');
        assert(right[0] == escaped_char(b.first())[0]);
        assert(false);
    } else if b.len() == 0 {
        lemma_escaped_front(a);
        assert(right[0] == '"');
        assert(left[0] == escaped_char(a.first())[0]);
        assert(false);
    } else {
        lemma_escaped_front(a);
        lemma_escaped_front(b);
        let x = escaped_char(a.first());
        let y = escaped_char(b.first());
        let rest_a = escaped(a.drop_first()) + seq!['"'] + after_a;
        let rest_b = escaped(b.drop_first()) + seq!['"'] + after_b;
        assert(left =~= x + rest_a);
        assert(right =~= y + rest_b);
        assert(left[0] == x[0] && right[0] == y[0]);
        if x.len() == 2 {
            assert(y.len() == 2);
            assert(left[1] == x[1] && right[1] == y[1]);
        }
        assert(a.first() == b.first());
        assert(rest_a =~= left.skip(x.len() as int));
        assert(rest_b =~= right.skip(y.len() as int));
        lemma_escaped_prefix(a.drop_first(), b.drop_first(), after_a, after_b);
        assert(a =~= seq![a.first()] + a.drop_first());
        assert(b =~= seq![b.first()] + b.drop_first());
    }
}

/// A rendered path is its first segment in quotes, then the rest.
proof fn lemma_rendered_front(path: Seq<Seq<char>>)
    requires
        path.len() > 0,
    ensures
        rendered(path) == quoted(path[0]) + (if path.len() == 1 {
            Seq::empty()
        } else {
            seq!['.'] + rendered(path.drop_first())
        }),
{
    let parts = path.map_values(|s: Seq<char>| quoted(s));
    if path.len() == 1 {
        assert(rendered(path) =~= quoted(path[0]) + Seq::<char>::empty());
    } else {
        crate::text::lemma_joined_front(parts, seq!['.']);
        assert(parts.drop_first() =~= path.drop_first().map_values(|s: Seq<char>| quoted(s)));
        assert(rendered(path) =~= quoted(path[0]) + (seq!['.'] + rendered(path.drop_first())));
    }
}

/// Law: two attribute paths are written alike only if they are the same path,
/// whatever quotes, backslashes and dots their segments hold.
pub proof fn law_rendering_is_injective(a: Seq<Seq<char>>, b: Seq<Seq<char>>)
    requires
        rendered(a) == rendered(b),
    ensures
        a == b,
    decreases a.len(),
{
    if a.len() > 0 {
        lemma_rendered_front(a);
    }
    if b.len() > 0 {
        lemma_rendered_front(b);
    }
    if a.len() == 0 || b.len() == 0 {
        if a.len() > 0 {
            assert(rendered(a)[0] == '"');
        }
        if b.len() > 0 {
            assert(rendered(b)[0] == '"');
        }
        assert(a =~= b);
    } else {
        let after_a = if a.len() == 1 {
            Seq::empty()
        } else {
            seq!['.'] + rendered(a.drop_first())
        };
        let after_b = if b.len() == 1 {
            Seq::empty()
        } else {
            seq!['.'] + rendered(b.drop_first())
        };
        assert(escaped(a[0]) + seq!['"'] + after_a =~= rendered(a).skip(1));
        assert(escaped(b[0]) + seq!['"'] + after_b =~= rendered(b).skip(1));
        lemma_escaped_prefix(a[0], b[0], after_a, after_b);
        if a.len() > 1 {
            assert(after_b.len() > 0);
            assert(rendered(a.drop_first()) =~= after_a.skip(1));
            assert(rendered(b.drop_first()) =~= after_b.skip(1));
            law_rendering_is_injective(a.drop_first(), b.drop_first());
            assert(a =~= seq![a[0]] + a.drop_first());
            assert(b =~= seq![b[0]] + b.drop_first());
        } else {
            assert(b.len() == 1);
            assert(a =~= b);
        }
    }
}

} // verus!
