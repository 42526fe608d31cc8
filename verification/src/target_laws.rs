//! What holds of every search of a directory listing.

use crate::targets::{
    any_pattern_matches, escaped, is_meta_character, path_if, pattern_for, qualifies, selected,
    EntryView,
};
use crate::paths::{joined, stem_of};
use vstd::prelude::*;
use vstd::seq_lib::{lemma_multiset_commutative, to_multiset_build, to_multiset_contains, to_multiset_len, to_multiset_remove};

verus! {

/// What is found in two listings one after the other is what is found in the
/// first and then what is found in the second.
pub proof fn lemma_selection_splits(
    directory: Seq<char>,
    first: Seq<EntryView>,
    second: Seq<EntryView>,
    patterns: Seq<Seq<char>>,
)
    ensures
        selected(directory, first + second, patterns) == selected(directory, first, patterns)
            + selected(directory, second, patterns),
    decreases second.len(),
{
    if second.len() == 0 {
        assert(first + second =~= first);
        assert(selected(directory, first, patterns) + selected(directory, second, patterns)
            =~= selected(directory, first, patterns));
    } else {
        lemma_selection_splits(directory, first, second.drop_last(), patterns);
        assert((first + second).drop_last() =~= first + second.drop_last());
        assert((first + second).last() == second.last());
        let entry = second.last();
        match path_if(
            directory,
            entry,
            any_pattern_matches(patterns, stem_of(entry.file_name)),
        ) {
            Some(path) => {
                assert(selected(directory, first + second, patterns) =~= selected(
                    directory,
                    first,
                    patterns,
                ) + (selected(directory, second.drop_last(), patterns) + seq![path]));
            },
            None => {},
        }
    }
}

/// A search finds the same executables, each as often, in whatever order the
/// directory was listed: two searches of one directory differ at most in the
/// order of what they find.
pub proof fn lemma_listing_order_is_immaterial(
    directory: Seq<char>,
    one: Seq<EntryView>,
    other: Seq<EntryView>,
    patterns: Seq<Seq<char>>,
)
    requires
        one.to_multiset() == other.to_multiset(),
    ensures
        selected(directory, one, patterns).to_multiset() == selected(
            directory,
            other,
            patterns,
        ).to_multiset(),
    decreases one.len(),
{
    to_multiset_len(one);
    to_multiset_len(other);
    if one.len() == 0 {
        assert(other =~= Seq::<EntryView>::empty());
        assert(one =~= Seq::<EntryView>::empty());
    } else {
        let entry = one.last();
        let rest = one.drop_last();
        assert(one =~= rest.push(entry));
        to_multiset_build(rest, entry);
        to_multiset_contains(other, entry);
        assert(other.to_multiset().count(entry) > 0);
        let j = other.index_of(entry);
        let others = other.remove(j);
        to_multiset_remove(other, j);
        assert(rest.to_multiset() =~= others.to_multiset());
        lemma_listing_order_is_immaterial(directory, rest, others, patterns);
        let single = seq![entry];
        let before = other.subrange(0, j);
        let after = other.subrange(j + 1, other.len() as int);
        assert(one =~= rest + single);
        assert(other =~= before + single + after);
        assert(others =~= before + after);
        lemma_selection_splits(directory, rest, single, patterns);
        lemma_selection_splits(directory, before, single, patterns);
        lemma_selection_splits(directory, before + single, after, patterns);
        lemma_selection_splits(directory, before, after, patterns);
        let sr = selected(directory, rest, patterns);
        let ss = selected(directory, single, patterns);
        let sb = selected(directory, before, patterns);
        let sa = selected(directory, after, patterns);
        lemma_multiset_commutative(sr, ss);
        lemma_multiset_commutative(sb, ss);
        lemma_multiset_commutative(sb + ss, sa);
        lemma_multiset_commutative(sb, sa);
        assert(selected(directory, one, patterns).to_multiset() =~= sr.to_multiset().add(
            ss.to_multiset(),
        ));
        assert(selected(directory, other, patterns).to_multiset() =~= sb.to_multiset().add(
            ss.to_multiset(),
        ).add(sa.to_multiset()));
        assert(selected(directory, others, patterns).to_multiset() =~= sb.to_multiset().add(
            sa.to_multiset(),
        ));
        assert(sb.to_multiset().add(ss.to_multiset()).add(sa.to_multiset()) =~= sb.to_multiset().add(
            sa.to_multiset(),
        ).add(ss.to_multiset()));
    }
}

/// Every path that a search finds names an entry of the listing that
/// qualifies.
pub proof fn lemma_found_entries_qualify(
    directory: Seq<char>,
    entries: Seq<EntryView>,
    patterns: Seq<Seq<char>>,
    i: int,
)
    requires
        0 <= i < selected(directory, entries, patterns).len(),
    ensures
        exists|k: int|
            0 <= k < entries.len() && qualifies(#[trigger] entries[k], patterns) && selected(
                directory,
                entries,
                patterns,
            )[i] == joined(directory, entries[k].file_name),
    decreases entries.len(),
{
    let found = selected(directory, entries, patterns);
    let rest = entries.drop_last();
    let before = selected(directory, rest, patterns);
    if i < before.len() {
        lemma_found_entries_qualify(directory, rest, patterns, i);
        let k = choose|k: int|
            0 <= k < rest.len() && qualifies(#[trigger] rest[k], patterns) && before[i] == joined(
                directory,
                rest[k].file_name,
            );
        assert(entries[k] == rest[k]);
    } else {
        let k = entries.len() - 1;
        assert(qualifies(entries[k], patterns));
    }
}

/// Every entry of the listing that qualifies is found.
pub proof fn lemma_qualifying_entries_are_found(
    directory: Seq<char>,
    entries: Seq<EntryView>,
    patterns: Seq<Seq<char>>,
    k: int,
)
    requires
        0 <= k < entries.len(),
        qualifies(entries[k], patterns),
    ensures
        selected(directory, entries, patterns).contains(joined(directory, entries[k].file_name)),
    decreases entries.len(),
{
    let found = selected(directory, entries, patterns);
    let rest = entries.drop_last();
    let before = selected(directory, rest, patterns);
    let path = joined(directory, entries[k].file_name);
    if k < entries.len() - 1 {
        lemma_qualifying_entries_are_found(directory, rest, patterns, k);
        let i = choose|i: int| 0 <= i < before.len() && before[i] == path;
        assert(found[i] == path);
    } else {
        assert(found[found.len() - 1] == path);
    }
}


/// A pattern read back as the text that it matches: each character stands
/// for itself, and a backslash before a character that means something in a
/// pattern is left out.
pub open spec fn unescaped(pattern: Seq<char>) -> Seq<char>
    decreases pattern.len(),
{
    if pattern.len() == 0 {
        Seq::empty()
    } else if is_meta_character(pattern.last()) && pattern.len() >= 2 {
        unescaped(pattern.take(pattern.len() - 2)).push(pattern.last())
    } else {
        unescaped(pattern.drop_last()).push(pattern.last())
    }
}

/// A name without a character that means something in a pattern is its own
/// pattern.
pub proof fn lemma_plain_name_is_its_pattern(name: Seq<char>)
    requires
        forall|i: int| 0 <= i < name.len() ==> !is_meta_character(#[trigger] name[i]),
    ensures
        escaped(name) == name,
    decreases name.len(),
{
    if name.len() > 0 {
        lemma_plain_name_is_its_pattern(name.drop_last());
        assert(!is_meta_character(name[name.len() - 1]));
        assert(escaped(name) =~= name);
    }
}

/// In the pattern of a name, every character that means something in a
/// pattern stands behind a backslash, which takes that meaning away: a `.`
/// or a `+` in a name matches itself and nothing wider. A backslash of the
/// name stands behind the backslash that escapes it.
pub proof fn lemma_meta_characters_are_escaped(name: Seq<char>, j: int)
    requires
        0 <= j < escaped(name).len(),
        is_meta_character(escaped(name)[j]),
        escaped(name)[j] != '\\',
    ensures
        j > 0,
        escaped(name)[j - 1] == '\\',
    decreases name.len(),
{
    let head = escaped(name.drop_last());
    if j < head.len() {
        lemma_meta_characters_are_escaped(name.drop_last(), j);
    }
}

/// The pattern of a name, read back, is the name.
pub proof fn lemma_unescaped_pattern_is_the_name(name: Seq<char>)
    ensures
        unescaped(escaped(name)) == name,
    decreases name.len(),
{
    if name.len() > 0 {
        let rest = name.drop_last();
        let c = name.last();
        let pattern = escaped(name);
        lemma_unescaped_pattern_is_the_name(rest);
        assert(pattern.last() == c);
        if is_meta_character(c) {
            assert(pattern.take(pattern.len() - 2) =~= escaped(rest));
        } else {
            assert(pattern.drop_last() =~= escaped(rest));
        }
        assert(rest.push(c) =~= name);
    }
}

/// Two names with one pattern are one name: no name is matched by the
/// pattern of another.
pub proof fn lemma_patterns_tell_names_apart(one: Seq<char>, other: Seq<char>)
    requires
        pattern_for(one) == pattern_for(other),
    ensures
        one == other,
{
    let head = "^"@;
    let tail = "-[0-9a-f]{16}$"@;
    let a = escaped(one);
    let b = escaped(other);
    assert(head + a + tail == head + b + tail);
    assert(a.len() == b.len()) by {
        assert((head + a + tail).len() == (head + b + tail).len());
    }
    assert(a =~= b) by {
        assert forall|i: int| 0 <= i < a.len() implies a[i] == b[i] by {
            assert((head + a + tail)[head.len() + i] == a[i]);
            assert((head + b + tail)[head.len() + i] == b[i]);
        }
    }
    lemma_unescaped_pattern_is_the_name(one);
    lemma_unescaped_pattern_is_the_name(other);
}

} // verus!
