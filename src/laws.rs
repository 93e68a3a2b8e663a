use vstd::prelude::*;

use crate::builder::keeps_error;
use crate::client::{cookie_line, with_cookie_line};
use crate::error::HttpError;
use crate::header::{
    appended, has_name, lowered, lowered_char, set_field, valid_header_value, values_of, without_name,
    FieldView,
};
use crate::types::RequestPre;

verus! {

/// Appending a field adds its value after the earlier values of its name and
/// leaves the values of every other name alone.
pub proof fn lemma_append_values(h: Seq<FieldView>, name: Seq<char>, value: Seq<char>, sensitive: bool, other: Seq<char>)
    ensures
        values_of(appended(h, name, value, sensitive), name) == values_of(h, name).push(value),
        other != name ==> values_of(appended(h, name, value, sensitive), other) == values_of(h, other),
{
    let a = appended(h, name, value, sensitive);
    assert(a.drop_last() =~= h);
}

/// Removing a name leaves no value under it.
pub proof fn lemma_without_name_values(h: Seq<FieldView>, name: Seq<char>)
    ensures
        values_of(without_name(h, name), name) == Seq::<Seq<char>>::empty(),
    decreases h.len(),
{
    if h.len() > 0 {
        lemma_without_name_values(h.drop_last(), name);
        let rest = without_name(h.drop_last(), name);
        if h.last().0 != name {
            assert(rest.push(h.last()).drop_last() =~= rest);
        }
    }
}

/// Two keys that both lower-case to a name lower-case to the same name.
pub proof fn lemma_lowered_unique(key: Seq<char>, n1: Seq<char>, n2: Seq<char>)
    requires
        lowered(key, n1),
        lowered(key, n2),
    ensures
        n1 == n2,
{
    assert forall|i: int| 0 <= i < n1.len() implies n1[i] == n2[i] by {
        lemma_lowered_char_unique(key[i], n1[i], n2[i]);
    }
    assert(n1 =~= n2);
}

proof fn lemma_lowered_char_unique(c: char, d1: char, d2: char)
    requires
        lowered_char(c, d1),
        lowered_char(c, d2),
    ensures
        d1 == d2,
{
    if 65 <= (c as u32) && (c as u32) <= 90 {
        assert(d1 as u32 == d2 as u32);
    }
}

/// Headers added under one key accumulate: after two appends whose names
/// come from the same key, that name holds the earlier values, then the first
/// value, then the second, whatever their sensitivity.
pub proof fn lemma_header_values_accumulate(
    h: Seq<FieldView>,
    key: Seq<char>,
    n1: Seq<char>,
    v1: Seq<char>,
    s1: bool,
    n2: Seq<char>,
    v2: Seq<char>,
    s2: bool,
)
    requires
        lowered(key, n1),
        lowered(key, n2),
    ensures
        n1 == n2,
        values_of(appended(appended(h, n1, v1, s1), n2, v2, s2), n1) == values_of(h, n1).push(
            v1,
        ).push(v2),
{
    lemma_lowered_unique(key, n1, n2);
    lemma_append_values(h, n1, v1, s1, n1);
    lemma_append_values(appended(h, n1, v1, s1), n1, v2, s2, n1);
}

/// Setting a field replaces: afterwards its name holds the new value alone.
pub proof fn lemma_set_replaces(h: Seq<FieldView>, name: Seq<char>, value: Seq<char>, sensitive: bool)
    ensures
        values_of(set_field(h, name, value, sensitive), name) == seq![value],
{
    lemma_without_name_values(h, name);
    lemma_append_values(without_name(h, name), name, value, sensitive, name);
    assert(Seq::<Seq<char>>::empty().push(value) =~= seq![value]);
}

/// In a chain of builder steps that each keep an earlier error, the first
/// error is the one the chain ends with.
pub proof fn lemma_first_error_wins<B>(steps: Seq<Result<RequestPre<B>, HttpError>>, i: int)
    requires
        0 <= i < steps.len(),
        steps[i] is Err,
        forall|k: int| 0 <= k < steps.len() - 1 ==> keeps_error(#[trigger] steps[k], steps[k + 1]),
    ensures
        steps.last() == steps[i],
    decreases steps.len() - i,
{
    if i < steps.len() - 1 {
        assert(keeps_error(steps[i], steps[i + 1]));
        lemma_first_error_wins(steps, i + 1);
    }
}

/// Cookie injection never overrides a Cookie header that is already there and
/// adds nothing when there is no cookie; otherwise a valid joined line becomes
/// the single Cookie value.
pub proof fn lemma_cookie_injection(h: Seq<FieldView>, pairs: Seq<(Seq<char>, Seq<char>)>)
    ensures
        has_name(h, "cookie"@) ==> with_cookie_line(h, pairs) == h,
        pairs.len() == 0 ==> with_cookie_line(h, pairs) == h,
        !has_name(h, "cookie"@) && pairs.len() > 0 && valid_header_value(cookie_line(pairs)) ==> values_of(
            with_cookie_line(h, pairs),
            "cookie"@,
        ) == seq![cookie_line(pairs)],
{
    lemma_set_replaces(h, "cookie"@, cookie_line(pairs), false);
}

} // verus!
