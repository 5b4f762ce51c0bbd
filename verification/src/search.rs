//! The search box: profiles by a part of their handle, name or title.
use vstd::prelude::*;

use crate::records::{SearchParams, SearchParamsView, SearchProfile};
use crate::status::StatusCode;
use crate::store::{Statement, StatementView, StoreError, Value, ValueView};
use crate::text::{
    differs_from, dropped_alone_is_nothing, others_are_kept, remove_char, removed_from_each_part,
    without,
};

verus! {

/// Finds at most two profiles.
pub const SEARCH_SQL: &'static str = r#"
        SELECT handle, name, title
        FROM profiles 
        WHERE handle LIKE ? OR name LIKE ? OR title LIKE ?
        LIMIT 2
        "#;

/// The pattern that a text typed into the search box stands for: the text anywhere
/// in a column, without the `@` that handles are written with.
pub open spec fn search_pattern(q: Seq<char>) -> Seq<char> {
    "%"@ + without(q, '@') + "%"@
}

/// The statement that a search runs.
pub open spec fn search(params: SearchParamsView) -> StatementView {
    StatementView {
        sql: SEARCH_SQL@,
        binds: seq![
            ValueView::Text(search_pattern(params.q)),
            ValueView::Text(search_pattern(params.q)),
            ValueView::Text(search_pattern(params.q)),
        ],
    }
}

/// The statement that looks for profiles by a part of their handle, name or title.
pub fn search_profiles(params: &SearchParams) -> (statement: Statement)
    ensures
        statement@ == search(params@),
        statement@.sql == SEARCH_SQL@,
        statement@.binds.len() == 3,
        forall|i: int|
            0 <= i < 3 ==> (#[trigger] statement@.binds[i] matches ValueView::Text(value)
                && value.first() == '%' && value.last() == '%' && value.len() >= 2
                && !value.contains('@')),
        !params.q@.contains('@') ==> forall|i: int|
            0 <= i < 3 ==> #[trigger] statement@.binds[i] == ValueView::Text(
                "%"@ + params.q@ + "%"@,
            ),
{
    let pattern = "%".to_string().concat(remove_char(params.q.as_str(), '@').as_str()).concat("%");
    let statement = Statement {
        sql: SEARCH_SQL,
        binds: vec![
            Value::Text(pattern.clone()),
            Value::Text(pattern.clone()),
            Value::Text(pattern),
        ],
    };
    assert(statement@ =~= search(params@));
    proof {
        pattern_is_open_and_plain(params.q@);
        if !params.q@.contains('@') {
            query_is_searched_as_typed(params.q@);
        }
    }
    statement
}

/// The reply to a search: the profiles found, as the database gave them, or an
/// error where it could not be asked.
pub fn search_reply(found: Result<Vec<SearchProfile>, StoreError>) -> (reply: Result<
    Vec<SearchProfile>,
    (StatusCode, String),
>)
    ensures
        match (found, reply) {
            (Ok(records), Ok(answer)) => answer == records && answer.deep_view()
                == records.deep_view(),
            (Err(_), Err((status, text))) => {
                &&& status == StatusCode::InternalServerError
                &&& text@ == "REGISTRY CORE FAIL"@
            },
            _ => false,
        },
{
    match found {
        Ok(records) => Ok(records),
        Err(_) => Err((StatusCode::InternalServerError, "REGISTRY CORE FAIL".to_string())),
    }
}

/// A query without `@` is searched for as it was typed, in handles, names and titles
/// alike: each of the three values is the query between the signs that let anything
/// stand before and behind it.
pub proof fn query_is_searched_as_typed(q: Seq<char>)
    requires
        !q.contains('@'),
    ensures
        search(SearchParamsView { q }).binds == seq![
            ValueView::Text("%"@ + q + "%"@),
            ValueView::Text("%"@ + q + "%"@),
            ValueView::Text("%"@ + q + "%"@),
        ],
{
    others_are_kept(q, '@');
    assert(search_pattern(q) =~= "%"@ + q + "%"@);
    assert(search(SearchParamsView { q }).binds =~= seq![
        ValueView::Text("%"@ + q + "%"@),
        ValueView::Text("%"@ + q + "%"@),
        ValueView::Text("%"@ + q + "%"@),
    ]);
}

/// Every value that a search binds holds no `@`, and lets anything stand before and
/// behind the text.
pub proof fn values_are_open_and_plain(q: Seq<char>, i: int)
    requires
        0 <= i < 3,
    ensures
        search(SearchParamsView { q }).binds.len() == 3,
        search(SearchParamsView { q }).binds[i] matches ValueView::Text(value)
            && !value.contains('@') && value.first() == '%' && value.last() == '%'
            && value.len() >= 2,
{
    pattern_is_open_and_plain(q);
}

/// A query is searched for piece by piece: the value bound for two texts in a row is
/// the one bound for the first, up to its closing sign, and then the one bound for
/// the second, from behind its opening sign. With this, the characters of a query
/// other than `@` are all bound, in their order.
pub proof fn queries_join(first: Seq<char>, second: Seq<char>, i: int)
    requires
        0 <= i < 3,
    ensures
        search(SearchParamsView { q: first + second }).binds[i] == ValueView::Text(
            search(SearchParamsView { q: first }).binds[i]->Text_0.drop_last() + search(
                SearchParamsView { q: second },
            ).binds[i]->Text_0.drop_first(),
        ),
{
    reveal_strlit("%");
    removed_from_each_part(first, second, '@');
    assert(search_pattern(first + second) =~= search_pattern(first).drop_last() + search_pattern(
        second,
    ).drop_first());
}

/// The `@` of a handle is not searched for: with a `@` anywhere in it, a query binds
/// the values that it binds without.
pub proof fn at_signs_are_passed_over(before: Seq<char>, after: Seq<char>)
    ensures
        search(SearchParamsView { q: before + seq!['@'] + after }) == search(
            SearchParamsView { q: before + after },
        ),
{
    removed_from_each_part(before, after, '@');
    removed_from_each_part(before + seq!['@'], after, '@');
    removed_from_each_part(before, seq!['@'], '@');
    dropped_alone_is_nothing('@');
    assert(without(before + seq!['@'] + after, '@') =~= without(before + after, '@'));
}

/// A pattern holds no `@`, and lets anything stand before and behind the text.
pub proof fn pattern_is_open_and_plain(q: Seq<char>)
    ensures
        !search_pattern(q).contains('@'),
        search_pattern(q).first() == '%',
        search_pattern(q).last() == '%',
        search_pattern(q).len() >= 2,
{
    reveal_strlit("%");
    let kept = without(q, '@');
    assert forall|i: int| 0 <= i < kept.len() implies kept[i] != '@' by {
        q.lemma_filter_pred(differs_from('@'), i);
    }
}

/// Whether a handle is typed with its `@` or without makes no difference.
pub proof fn at_sign_makes_no_difference(q: Seq<char>)
    ensures
        search_pattern("@"@ + q) == search_pattern(q),
        search_pattern(without(q, '@')) == search_pattern(q),
{
    reveal_strlit("@");
    let plain = differs_from('@');
    Seq::filter_distributes_over_add("@"@, q, plain);
    reveal_with_fuel(Seq::filter, 2);
    assert("@"@.drop_last() =~= Seq::empty());
    assert("@"@.filter(plain) =~= Seq::empty());
    assert(("@"@ + q).filter(plain) =~= q.filter(plain));
    lemma_kept_is_kept(q, plain);
}

proof fn lemma_kept_is_kept(q: Seq<char>, keep: spec_fn(char) -> bool)
    ensures
        q.filter(keep).filter(keep) == q.filter(keep),
    decreases q.len(),
{
    reveal(Seq::filter);
    if q.len() > 0 {
        lemma_kept_is_kept(q.drop_last(), keep);
        let rest = q.drop_last().filter(keep);
        if keep(q.last()) {
            assert(rest.push(q.last()).drop_last() =~= rest);
        }
    }
}

} // verus!
