//! Response aggregation: turns the ordered sequence of partial results a
//! child session pushed through its side channel into the single textual
//! payload sent back to the original caller.

use vstd::prelude::*;
use vstd::string::StringExecFns;

verus! {

#[verifier::external_type_specification]
#[verifier::external_body]
pub struct ExValue(serde_json::Value);

/// The rendering `serde_json` gives a single value: its pretty-printed
/// encoding, or, should the serializer fail, a debug-style rendering. Either
/// way it depends on the value alone.
pub uninterp spec fn single_render_of(v: serde_json::Value) -> Seq<char>;

/// The rendering `serde_json` gives an object with one field, named by `key`,
/// holding `items` as an array in order: its pretty-printed encoding, or,
/// should the serializer fail, a debug-style rendering of the items. Either
/// way it depends on the key and the items alone.
pub uninterp spec fn keyed_render_of(key: Seq<char>, items: Seq<serde_json::Value>) -> Seq<char>;

/// Relies on serde_json::to_string_pretty: the encoding is a function of the
/// value alone; on a serializer error the fallback renders the value through
/// its Debug impl, also a function of the value alone.
#[verifier::external_body]
fn render_single(v: &serde_json::Value) -> (r: String)
    ensures
        r@ == single_render_of(*v),
{
    serde_json::to_string_pretty(v).unwrap_or_else(|_| format!("{:?}", v))
}

/// Relies on serde_json::Map::insert, serde_json::Value::{Array, Object} and
/// serde_json::to_string_pretty: the one-field object built here, and hence
/// its encoding, is a function of the key and the items alone; on a
/// serializer error the fallback renders the items through their Debug impl.
#[verifier::external_body]
fn render_under_key(key: &str, items: &Vec<serde_json::Value>) -> (r: String)
    ensures
        r@ == keyed_render_of(key@, items@),
{
    let mut wrapper = serde_json::Map::new();
    wrapper.insert(key.to_string(), serde_json::Value::Array(items.clone()));
    serde_json::to_string_pretty(&serde_json::Value::Object(wrapper)).unwrap_or_else(
        |_| format!("{:?}", items),
    )
}

/// The fixed sentence replying to a research request whose child session
/// pushed no result at all.
pub open spec fn no_results_sentinel(subject: Seq<char>) -> Seq<char> {
    "Research completed for crate '"@ + subject + "' but no responses were returned."@
}

/// What one research orchestration replies, as a function of the subject and
/// of the items collected from the side channel, in arrival order: none, a
/// fixed sentence naming the subject; one, that item's own rendering; many,
/// all of them together under one wrapping field.
pub open spec fn aggregated_spec(subject: Seq<char>, items: Seq<serde_json::Value>) -> Seq<char> {
    if items.len() == 0 {
        no_results_sentinel(subject)
    } else if items.len() == 1 {
        single_render_of(items[0])
    } else {
        keyed_render_of("responses"@, items)
    }
}

/// Builds the reply payload for `subject` from the collected `items`.
pub fn aggregate(subject: &String, items: &Vec<serde_json::Value>) -> (r: String)
    ensures
        r@ == aggregated_spec(subject@, items@),
{
    if items.len() == 0 {
        let mut s = "Research completed for crate '".to_owned();
        s.append(subject.as_str());
        s.append("' but no responses were returned.");
        s
    } else if items.len() == 1 {
        render_single(&items[0])
    } else {
        render_under_key("responses", items)
    }
}

} // verus!
