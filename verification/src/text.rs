//! Texts put together, searched and copied.
use crate::table::{Table, pairs_map};
use vstd::prelude::*;

verus! {

/// The parts in order, with the separator between each two.
pub open spec fn joined(parts: Seq<Seq<char>>, separator: Seq<char>) -> Seq<char>
    decreases parts.len(),
{
    if parts.len() == 0 {
        Seq::empty()
    } else if parts.len() == 1 {
        parts.first()
    } else {
        joined(parts.drop_last(), separator) + separator + parts.last()
    }
}

/// Some stretch of `text` is `pattern`.
pub open spec fn has_substring(text: Seq<char>, pattern: Seq<char>) -> bool {
    exists|start: int|
        0 <= start && start + pattern.len() <= text.len() && #[trigger] text.subrange(
            start,
            start + pattern.len(),
        ) == pattern
}

/// `str::contains` with a string as its pattern: whether the pattern matches a part of the text.
#[verifier::external_body]
pub(crate) fn contains(text: &str, pattern: &str) -> (found: bool)
    ensures
        found == has_substring(text@, pattern@),
{
    text.contains(pattern)
}

/// The views of a list of strings.
pub open spec fn texts(list: Seq<String>) -> Seq<Seq<char>> {
    list.map_values(|s: String| s@)
}

/// The views of the values of a map.
pub open spec fn text_values(map: Map<Seq<char>, String>) -> Map<Seq<char>, Seq<char>> {
    map.map_values(|s: String| s@)
}

/// Enters each pair into the table, in order.
pub(crate) fn insert_all(table: &mut Table<String, String>, pairs: &Vec<(String, String)>)
    ensures
        final(table)@ == old(table)@.union_prefer_right(pairs_map(pairs@)),
{
    let mut i: usize = 0;
    assert(pairs@.take(0) =~= Seq::empty());
    assert(table@.union_prefer_right(Map::empty()) =~= table@);
    while i < pairs.len()
        invariant
            i <= pairs@.len(),
            table@ == old(table)@.union_prefer_right(pairs_map(pairs@.take(i as int))),
        decreases pairs@.len() - i,
    {
        proof {
            assert(pairs@.take(i + 1).drop_last() =~= pairs@.take(i as int));
        }
        table.insert(pairs[i].0.clone(), pairs[i].1.clone());
        assert(table@ =~= old(table)@.union_prefer_right(pairs_map(pairs@.take(i + 1))));
        i = i + 1;
    }
    assert(pairs@.take(i as int) =~= pairs@);
}

/// The views of a list of strings stand in its places, one for each string.
pub proof fn law_texts_keep_their_places(list: Seq<String>, i: int)
    ensures
        texts(list).len() == list.len(),
        0 <= i < list.len() ==> texts(list)[i] == list[i]@,
{
}

/// The views of the values stand under the keys of the map, and under no others.
pub proof fn law_text_values_keep_their_keys(map: Map<Seq<char>, String>, key: Seq<char>)
    ensures
        text_values(map).contains_key(key) <==> map.contains_key(key),
        map.contains_key(key) ==> text_values(map)[key] == map[key]@,
{
}

/// Nothing joined is nothing, and one part joined is the part itself.
pub proof fn law_one_part_is_joined_alone(part: Seq<char>, separator: Seq<char>)
    ensures
        joined(Seq::empty(), separator) == Seq::<char>::empty(),
        joined(seq![part], separator) == part,
{
}

/// Two runs of parts are joined with one separator between them.
pub proof fn law_joined_runs_are_separated(
    first: Seq<Seq<char>>,
    second: Seq<Seq<char>>,
    separator: Seq<char>,
)
    requires
        first.len() > 0,
        second.len() > 0,
    ensures
        joined(first + second, separator) == joined(first, separator) + separator + joined(
            second,
            separator,
        ),
    decreases second.len(),
{
    let all = first + second;
    assert(all.drop_last() =~= first + second.drop_last());
    assert(all.last() == second.last());
    if second.len() == 1 {
        assert(first + second.drop_last() =~= first);
        assert(second.first() == second.last());
    } else {
        law_joined_runs_are_separated(first, second.drop_last(), separator);
    }
    assert(joined(all, separator) =~= joined(first, separator) + separator + joined(
        second,
        separator,
    ));
}

/// A text has a pattern in it exactly where it is made of some text, the pattern and some text.
pub proof fn law_substring_stands_between(text: Seq<char>, pattern: Seq<char>)
    ensures
        has_substring(text, pattern) <==> exists|before: Seq<char>, after: Seq<char>|
            text == #[trigger] (before + pattern + after),
{
    if has_substring(text, pattern) {
        let start = choose|start: int|
            0 <= start && start + pattern.len() <= text.len() && #[trigger] text.subrange(
                start,
                start + pattern.len(),
            ) == pattern;
        let before = text.subrange(0, start);
        let after = text.subrange(start + pattern.len(), text.len() as int);
        assert(text =~= before + pattern + after) by {
            assert forall|i: int| 0 <= i < text.len() implies text[i] == (before + pattern
                + after)[i] by {
                if start <= i < start + pattern.len() {
                    assert(text.subrange(start, start + pattern.len())[i - start] == text[i]);
                }
            }
        }
    }
    if exists|before: Seq<char>, after: Seq<char>| text == #[trigger] (before + pattern + after) {
        let (before, after) = choose|before: Seq<char>, after: Seq<char>|
            text == #[trigger] (before + pattern + after);
        let start = before.len() as int;
        assert(text.subrange(start, start + pattern.len()) =~= pattern);
    }
}

} // verus!
