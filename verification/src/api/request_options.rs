//! Provider options passed through to OpenAI-compatible request bodies.

use vstd::prelude::*;
use vstd::string::*;

use crate::json::{
    json_entries, json_get, json_is_null, json_is_null_value, json_is_object, json_object_members, json_set_member,
};
use crate::text::str_eq;

verus! {

/// The body member an option is written to: `reasoningEffort` becomes
/// `reasoning_effort`, `textVerbosity` becomes `verbosity`, any other key
/// is kept.
pub open spec fn body_key_spec(key: Seq<char>) -> Seq<char> {
    if key == "reasoningEffort"@ {
        "reasoning_effort"@
    } else if key == "textVerbosity"@ {
        "verbosity"@
    } else {
        key
    }
}

/// The body member an option is written to.
pub fn body_key(key: &str) -> (r: String)
    ensures
        r@ == body_key_spec(key@),
{
    if str_eq(key, "reasoningEffort") {
        String::from_str("reasoning_effort")
    } else if str_eq(key, "textVerbosity") {
        String::from_str("verbosity")
    } else {
        String::from_str(key)
    }
}

/// The member `k` of a request body after the provider options `entries`
/// were copied into it in order: the last entry whose body key is `k`, else
/// the body's own member (a `null` body has none).
pub open spec fn merged_member(
    body: serde_json::Value,
    entries: Seq<(Seq<char>, serde_json::Value)>,
    k: Seq<char>,
) -> Option<serde_json::Value>
    decreases entries.len(),
{
    if entries.len() == 0 {
        if json_is_null_value(body) {
            None
        } else {
            json_get(body, k)
        }
    } else if body_key_spec(entries.last().0) == k {
        Some(entries.last().1)
    } else {
        merged_member(body, entries.drop_last(), k)
    }
}

/// Copy every member of the provider options (when they are an object)
/// into the request body, under its body key, in the order the options
/// map walks them. A body that is `null` becomes an object; one that is
/// neither an object nor `null` cannot take members, and is not accepted
/// when there is something to copy.
pub fn merge_openai_compatible_options(body: &mut serde_json::Value, provider_options: &serde_json::Value)
    requires
        json_entries(*provider_options) matches Some(es) && es.len() > 0 ==> (json_entries(
            *old(body),
        ) is Some || json_is_null_value(*old(body))),
    ensures
        match json_entries(*provider_options) {
            Some(es) => if es.len() == 0 {
                *final(body) == *old(body)
            } else {
                &&& json_entries(*final(body)) is Some
                &&& forall|k: Seq<char>| #[trigger]
                    json_get(*final(body), k) == merged_member(*old(body), es, k)
            },
            None => *final(body) == *old(body),
        },
{
    let members = match json_object_members(provider_options) {
        Some(m) => m,
        None => return ,
    };
    let ghost es = members@.map_values(|e: (String, serde_json::Value)| (e.0@, e.1));
    let ghost body0 = *body;
    let mut i: usize = 0;
    while i < members.len()
        invariant
            i <= members@.len(),
            es == members@.map_values(|e: (String, serde_json::Value)| (e.0@, e.1)),
            json_entries(*provider_options) == Some(es),
            es.len() > 0 ==> (json_entries(body0) is Some || json_is_null_value(body0)),
            i == 0 ==> *body == body0,
            i > 0 ==> json_entries(*body) is Some && !json_is_null_value(*body),
            i > 0 ==> forall|k: Seq<char>| #[trigger]
                json_get(*body, k) == merged_member(body0, es.take(i as int), k),
        decreases members@.len() - i,
    {
        let key = body_key(members[i].0.as_str());
        let member = members[i].1.clone();
        let ghost before = *body;
        json_set_member(body, key, member);
        proof {
            let t = es.take(i as int + 1);
            assert(t.drop_last() =~= es.take(i as int));
            assert(t.last() == es[i as int]);
            assert(es[i as int] == (members@[i as int].0@, members@[i as int].1));
            assert forall|k: Seq<char>| #[trigger]
                json_get(*body, k) == merged_member(body0, t, k) by {
                if i == 0 {
                    assert(es.take(0).len() == 0);
                }
            }
        }
        i = i + 1;
    }
    proof {
        assert(es.take(members@.len() as int) =~= es);
    }
}

/// Copy the provider options into the request body when the body can take
/// them (it is an object or `null`, or there is nothing to copy), as
/// `merge_openai_compatible_options` does; otherwise leave the body as it
/// is. Whether the options were copied.
pub fn try_merge_openai_compatible_options(body: &mut serde_json::Value, provider_options: &serde_json::Value) -> (r:
    bool)
    ensures
        r == !(json_entries(*provider_options) matches Some(es) && es.len() > 0 && !(json_entries(
            *old(body),
        ) is Some || json_is_null_value(*old(body)))),
        !r ==> *final(body) == *old(body),
        r ==> match json_entries(*provider_options) {
            Some(es) => if es.len() == 0 {
                *final(body) == *old(body)
            } else {
                &&& json_entries(*final(body)) is Some
                &&& forall|k: Seq<char>| #[trigger]
                    json_get(*final(body), k) == merged_member(*old(body), es, k)
            },
            None => *final(body) == *old(body),
        },
{
    if json_is_object(body) || json_is_null(body) {
        merge_openai_compatible_options(body, provider_options);
        return true;
    }
    match json_object_members(provider_options) {
        Some(m) => if m.len() == 0 {
            merge_openai_compatible_options(body, provider_options);
            true
        } else {
            false
        },
        None => {
            merge_openai_compatible_options(body, provider_options);
            true
        },
    }
}

} // verus!
