//! Texts as sequences of characters.
use vstd::prelude::*;

verus! {

/// `String::push` of the standard library, which appends a character to the
/// end of the string.
pub assume_specification[ String::push ](s: &mut String, ch: char)
    ensures
        final(s)@ == old(s)@.push(ch),
;

/// The contents of borrowed texts.
pub open spec fn texts(items: Seq<&str>) -> Seq<Seq<char>> {
    items.map_values(|s: &str| s@)
}

/// Copies the texts of a list.
pub fn copy_texts(items: &Vec<String>) -> (copy: Vec<String>)
    ensures
        copy.deep_view() == items.deep_view(),
        copy@.len() == items@.len(),
        forall|i: int| 0 <= i < items@.len() ==> (#[trigger] copy@[i])@ == items@[i]@,
{
    let mut copy: Vec<String> = Vec::new();
    let mut i: usize = 0;
    while i < items.len()
        invariant
            i <= items.len(),
            copy@.len() == i,
            forall|j: int| 0 <= j < i ==> (#[trigger] copy@[j])@ == items@[j]@,
        decreases items.len() - i,
    {
        copy.push(items[i].clone());
        i += 1;
    }
    assert(copy.deep_view() =~= items.deep_view());
    copy
}

/// Owns borrowed texts, in their order.
pub fn own_texts(items: &[&str]) -> (owned: Vec<String>)
    ensures
        owned.deep_view() == texts(items@),
        owned@.len() == items@.len(),
        forall|i: int| 0 <= i < items@.len() ==> (#[trigger] owned@[i])@ == items@[i]@,
{
    let mut owned: Vec<String> = Vec::new();
    let mut i: usize = 0;
    while i < items.len()
        invariant
            i <= items.len(),
            owned@.len() == i,
            forall|j: int| 0 <= j < i ==> (#[trigger] owned@[j])@ == items@[j]@,
        decreases items.len() - i,
    {
        owned.push(items[i].to_string());
        i += 1;
    }
    assert(owned.deep_view() =~= texts(items@));
    owned
}

/// What tells a character apart from the others.
pub open spec fn differs_from(dropped: char) -> spec_fn(char) -> bool {
    |c: char| c != dropped
}

/// A text without a given character.
pub open spec fn without(s: Seq<char>, dropped: char) -> Seq<char> {
    s.filter(differs_from(dropped))
}

/// Removes every occurrence of a character from a text.
pub fn remove_char(s: &str, dropped: char) -> (rest: String)
    ensures
        rest@ == without(s@, dropped),
        !rest@.contains(dropped),
        !s@.contains(dropped) ==> rest@ == s@,
{
    let mut rest = String::new();
    proof {
        reveal(Seq::filter);
        assert(s@.take(0) =~= Seq::empty());
    }
    for c in it: s.chars()
        invariant
            it.seq() == s@,
            rest@ == without(s@.take(it.index() as int), dropped),
    {
        proof {
            reveal(Seq::filter);
            assert(s@.take(it.index() + 1).drop_last() =~= s@.take(it.index() as int));
        }
        if c != dropped {
            rest.push(c);
        }
    }
    assert(s@.take(s@.len() as int) =~= s@);
    proof {
        dropped_is_gone(s@, dropped);
        if !s@.contains(dropped) {
            others_are_kept(s@, dropped);
        }
    }
    rest
}

/// A text from which a character was removed does not hold it.
pub proof fn dropped_is_gone(s: Seq<char>, dropped: char)
    ensures
        !without(s, dropped).contains(dropped),
{
    assert forall|i: int| 0 <= i < without(s, dropped).len() implies without(s, dropped)[i]
        != dropped by {
        s.lemma_filter_pred(differs_from(dropped), i);
    }
}

/// A text that does not hold a character is left unchanged where it is removed.
pub proof fn others_are_kept(s: Seq<char>, dropped: char)
    requires
        !s.contains(dropped),
    ensures
        without(s, dropped) == s,
    decreases s.len(),
{
    reveal(Seq::filter);
    if s.len() > 0 {
        assert(s.contains(s[s.len() - 1]));
        assert forall|i: int| 0 <= i < s.drop_last().len() implies s.drop_last()[i] != dropped by {
            assert(s.contains(s[i]));
        }
        others_are_kept(s.drop_last(), dropped);
        assert(s.drop_last().push(s.last()) =~= s);
    }
}

/// A character is removed from a text piece by piece: from the first part, and from
/// the rest.
pub proof fn removed_from_each_part(first: Seq<char>, rest: Seq<char>, dropped: char)
    ensures
        without(first + rest, dropped) == without(first, dropped) + without(rest, dropped),
{
    Seq::filter_distributes_over_add(first, rest, differs_from(dropped));
}

/// Of a text that is the character alone, nothing is left.
pub proof fn dropped_alone_is_nothing(dropped: char)
    ensures
        without(seq![dropped], dropped) == Seq::<char>::empty(),
{
    reveal_with_fuel(Seq::filter, 2);
    assert(seq![dropped].drop_last() =~= Seq::empty());
    assert(without(seq![dropped], dropped) =~= Seq::empty());
}

} // verus!
