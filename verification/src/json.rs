//! The compact JSON text of a value. Lists and objects are framed here;
//! the texts of numbers and strings are those that `serde_json` writes.

use crate::text::{join, joined, texts_view};
use crate::value::{
    entries_view, items_view, lemma_view_list, lemma_view_object, JsonModel, Value,
};
use vstd::prelude::*;
use vstd::string::*;

verus! {

/// A text as `serde_json` writes it: a JSON string in double quotes, with
/// the escapes of its quotes, backslashes and control characters.
pub uninterp spec fn json_quoted(s: Seq<char>) -> Seq<char>;

/// The `Display` of `serde_json::Value` for a string value, in its compact
/// form. The text that it writes depends on the characters of the string
/// alone; it is named [`json_quoted`].
#[verifier::external_body]
pub(crate) fn quote_json(s: &str) -> (r: String)
    ensures
        r@ == json_quoted(s@),
{
    serde_json::Value::String(s.to_owned()).to_string()
}

/// The JSON texts of the first `n` items of a list.
pub open spec fn json_items(items: Seq<JsonModel>, n: nat) -> Seq<Seq<char>>
    decreases items, n,
{
    if n == 0 || n > items.len() {
        Seq::empty()
    } else {
        json_items(items, (n - 1) as nat).push(json_text(items[n - 1]))
    }
}

/// The JSON texts `"key":value` of the first `n` entries of an object.
pub open spec fn json_members(entries: Seq<(Seq<char>, JsonModel)>, n: nat) -> Seq<Seq<char>>
    decreases entries, n,
{
    if n == 0 || n > entries.len() {
        Seq::empty()
    } else {
        json_members(entries, (n - 1) as nat).push(
            json_quoted(entries[n - 1].0) + ":"@ + json_text(entries[n - 1].1),
        )
    }
}

/// The compact JSON text of a value: no space between tokens, the entries of
/// an object in the order in which it holds them.
pub open spec fn json_text(v: JsonModel) -> Seq<char>
    decreases v, 0nat,
{
    match v {
        JsonModel::Null => "null"@,
        JsonModel::Bool(b) => if b {
            "true"@
        } else {
            "false"@
        },
        JsonModel::Number(n) => n.text(),
        JsonModel::String(s) => json_quoted(s),
        JsonModel::List(items) => "["@ + joined(json_items(items, items.len()), ","@) + "]"@,
        JsonModel::Object(entries) => "{"@ + joined(json_members(entries, entries.len()), ","@)
            + "}"@,
    }
}

/// The JSON texts of the items of a list.
pub fn items_to_json(items: &Vec<Value>) -> (r: Vec<String>)
    ensures
        texts_view(r@) == json_items(items_view(items@), items.len() as nat),
    decreases items,
{
    let ghost iv = items_view(items@);
    let mut out: Vec<String> = Vec::new();
    let mut i: usize = 0;
    while i < items.len()
        invariant
            i <= items.len(),
            iv == items_view(items@),
            texts_view(out@) == json_items(iv, i as nat),
        decreases items.len() - i,
    {
        let ghost before = texts_view(out@);
        let text = items[i].to_json_text();
        out.push(text);
        proof {
            assert(json_items(iv, (i + 1) as nat) == json_items(iv, i as nat).push(
                json_text(iv[i as int]),
            ));
            assert(texts_view(out@) =~= before.push(text@));
        }
        i += 1;
    }
    out
}

/// The JSON texts of the entries of an object.
pub fn members_to_json(entries: &Vec<(String, Value)>) -> (r: Vec<String>)
    ensures
        texts_view(r@) == json_members(entries_view(entries@), entries.len() as nat),
    decreases entries,
{
    let ghost ev = entries_view(entries@);
    let mut out: Vec<String> = Vec::new();
    let mut i: usize = 0;
    while i < entries.len()
        invariant
            i <= entries.len(),
            ev == entries_view(entries@),
            texts_view(out@) == json_members(ev, i as nat),
        decreases entries.len() - i,
    {
        let ghost before = texts_view(out@);
        let mut text = quote_json(entries[i].0.as_str());
        text.append(":");
        let value = entries[i].1.to_json_text();
        text.append(value.as_str());
        out.push(text);
        proof {
            assert(json_members(ev, (i + 1) as nat) == json_members(ev, i as nat).push(
                json_quoted(ev[i as int].0) + ":"@ + json_text(ev[i as int].1),
            ));
            assert(texts_view(out@) =~= before.push(text@));
        }
        i += 1;
    }
    out
}

impl Value {
    /// The compact JSON text of the value.
    pub fn to_json_text(&self) -> (r: String)
        ensures
            r@ == json_text(self@),
        decreases self,
    {
        match self {
            Value::Null => String::from_str("null"),
            Value::Bool(b) => if *b {
                String::from_str("true")
            } else {
                String::from_str("false")
            },
            Value::Number(n) => n.to_text(),
            Value::String(s) => quote_json(s.as_str()),
            Value::List(items) => {
                proof {
                    lemma_view_list(*items);
                }
                let parts = items_to_json(items);
                let mut out = String::from_str("[");
                let inner = join(&parts, ",");
                out.append(inner.as_str());
                out.append("]");
                out
            },
            Value::Object(entries) => {
                proof {
                    lemma_view_object(*entries);
                }
                let parts = members_to_json(entries);
                let mut out = String::from_str("{");
                let inner = join(&parts, ",");
                out.append(inner.as_str());
                out.append("}");
                out
            },
        }
    }
}

} // verus!
