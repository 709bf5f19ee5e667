//! Extraction of the probe target from a request's query string.

use crate::error::ProbeError;
use crate::text::str_eq;
use vstd::prelude::*;

verus! {

/// The (name, value) pairs that `url::form_urlencoded::parse` reads out of a
/// query string, in the order in which they occur in it.
pub uninterp spec fn form_pairs(query: Seq<char>) -> Seq<(Seq<char>, Seq<char>)>;

/// Decodes a query string with `url::form_urlencoded::parse`. Nothing is
/// claimed of the pairs beyond their being the ones that function yields for
/// this input, which [`form_pairs`] names.
#[verifier::external_body]
pub(crate) fn parse_query(query: &str) -> (pairs: Vec<(String, String)>)
    ensures
        pairs.deep_view() == form_pairs(query@),
{
    url::form_urlencoded::parse(query.as_bytes()).into_owned().collect()
}

/// The name of the one query parameter that a probe reads.
pub open spec fn target_param() -> Seq<char> {
    "target"@
}

/// The value of the last pair named `key`, if there is one. Where a name
/// occurs more than once the last occurrence counts.
pub open spec fn last_value(pairs: Seq<(Seq<char>, Seq<char>)>, key: Seq<char>) -> Option<
    Seq<char>,
>
    decreases pairs.len(),
{
    if pairs.len() == 0 {
        None
    } else if pairs.last().0 == key {
        Some(pairs.last().1)
    } else {
        last_value(pairs.drop_last(), key)
    }
}

/// The outcome of parameter extraction for a request whose query string, if
/// it has one, is `query`.
pub open spec fn spec_extract_target(query: Option<Seq<char>>) -> Result<Seq<char>, ProbeError> {
    match query {
        None => Err(ProbeError::MissingQuery),
        Some(q) => match last_value(form_pairs(q), target_param()) {
            None => Err(ProbeError::MissingTarget),
            Some(t) => Ok(t),
        },
    }
}

/// [`last_value`] finds nothing exactly when no pair has the name, and
/// otherwise yields the value of the pair after which the name does not
/// occur again.
pub proof fn lemma_last_value(pairs: Seq<(Seq<char>, Seq<char>)>, key: Seq<char>)
    ensures
        last_value(pairs, key) is None <==> forall|i: int|
            0 <= i < pairs.len() ==> (#[trigger] pairs[i]).0 != key,
        last_value(pairs, key) matches Some(v) ==> exists|i: int|
            0 <= i < pairs.len() && (#[trigger] pairs[i]) == (key, v) && forall|j: int|
                i < j < pairs.len() ==> (#[trigger] pairs[j]).0 != key,
    decreases pairs.len(),
{
    if pairs.len() > 0 {
        let n = pairs.len() - 1;
        let front = pairs.drop_last();
        lemma_last_value(front, key);
        assert forall|i: int| 0 <= i < n implies front[i] == pairs[i] by {}
        if pairs.last().0 == key {
            assert(pairs[n] == (key, pairs.last().1));
        } else {
            if last_value(front, key) is None {
                assert forall|i: int| 0 <= i < pairs.len() implies (#[trigger] pairs[i]).0
                    != key by {
                    if i < n {
                        assert(front[i] == pairs[i]);
                    }
                }
            } else {
                let v = last_value(front, key)->Some_0;
                let i = choose|i: int|
                    0 <= i < front.len() && (#[trigger] front[i]) == (key, v) && forall|j: int|
                        i < j < front.len() ==> (#[trigger] front[j]).0 != key;
                assert(pairs[i] == (key, v));
                assert forall|j: int| i < j < pairs.len() implies (#[trigger] pairs[j]).0
                    != key by {
                    if j < n {
                        assert(front[j] == pairs[j]);
                    }
                }
            }
        }
    }
}

/// Looks a parameter up among decoded pairs; the last pair of that name wins.
pub fn find_param(pairs: &Vec<(String, String)>, key: &str) -> (value: Option<String>)
    ensures
        value is Some <==> last_value(pairs.deep_view(), key@) is Some,
        value matches Some(v) ==> last_value(pairs.deep_view(), key@) == Some(v@),
{
    let ghost all = pairs.deep_view();
    let mut i: usize = pairs.len();
    proof {
        assert(all.take(i as int) =~= all);
    }
    while i > 0
        invariant
            i <= pairs.len(),
            all == pairs.deep_view(),
            last_value(all, key@) == last_value(all.take(i as int), key@),
        decreases i,
    {
        let ghost prefix = all.take(i as int);
        i = i - 1;
        proof {
            assert(prefix.last() == all[i as int]);
            assert(all[i as int] == (pairs@[i as int].0@, pairs@[i as int].1@));
            assert(prefix.drop_last() =~= all.take(i as int));
        }
        if str_eq(pairs[i].0.as_str(), key) {
            return Some(pairs[i].1.clone());
        }
    }
    proof {
        assert(all.take(0).len() == 0);
    }
    None
}

/// Reads the probe target out of a request's query string.
///
/// Fails with [`ProbeError::MissingQuery`] where the request has no query
/// string and with [`ProbeError::MissingTarget`] where the query string has
/// no `target` parameter. No other parameter is looked at, and the target is
/// returned as decoded, without validation.
pub fn extract_target(query: Option<&str>) -> (target: Result<String, ProbeError>)
    ensures
        match spec_extract_target(
            match query {
                Some(q) => Some(q@),
                None => None,
            },
        ) {
            Ok(t) => target matches Ok(s) && s@ == t,
            Err(e) => target == Err::<String, ProbeError>(e),
        },
{
    match query {
        None => Err(ProbeError::MissingQuery),
        Some(q) => {
            let pairs = parse_query(q);
            match find_param(&pairs, "target") {
                None => Err(ProbeError::MissingTarget),
                Some(t) => Ok(t),
            }
        },
    }
}

} // verus!
