//! What a request may add to the body and the headers that go to a provider.

use vstd::prelude::*;
use serde_json::Value;
use crate::error::{Error, ErrorDetails};
use crate::json::{json_text, json_to_string};
use crate::text::chars_of;

verus! {

/// A value to put into the body of a request, at the place that a JSON
/// pointer names.
#[derive(Debug, Clone, PartialEq)]
pub struct ExtraBodyReplacement {
    pub pointer: String,
    pub value: Value,
}

/// A header to add to a request.
#[derive(Debug, Clone, PartialEq)]
pub struct ExtraHeader {
    pub name: String,
    pub value: String,
}

/// The compact text of the document with the compact text `document` once
/// the value with the compact text `value` stands at the place that
/// `pointer` names; `None` where the document has no such place.
pub uninterp spec fn json_put(document: Seq<char>, pointer: Seq<char>, value: Seq<char>) -> Option<Seq<char>>;

/// The compact text of the document with the compact text `document` once
/// the object at the place that `parent` names has the member `key` with the
/// value with the compact text `value`; `None` where no object is at that place.
pub uninterp spec fn json_put_member(
    document: Seq<char>,
    parent: Seq<char>,
    key: Seq<char>,
    value: Seq<char>,
) -> Option<Seq<char>>;

/// Calls `Value::pointer_mut` and assigns the value to the place that it
/// gives. Where it gives none, the document comes back as it was.
#[verifier::external_body]
fn put(document: Value, pointer: &str, value: &Value) -> (r: Result<Value, Value>)
    ensures
        match r {
            Ok(d) => json_put(json_text(document), pointer@, json_text(*value)) == Some(json_text(d)),
            Err(d) => json_put(json_text(document), pointer@, json_text(*value)) is None && d
                == document,
        },
{
    let mut document = document;
    match document.pointer_mut(pointer) {
        Some(place) => {
            *place = value.clone();
            Ok(document)
        },
        None => Err(document),
    }
}

/// Calls `Value::pointer_mut` for the parent and `Map::insert` on the object
/// that it gives, which adds the member or gives it a new value. Where there
/// is no object at that place, the document comes back as it was.
#[verifier::external_body]
fn put_member(document: Value, parent: &str, key: &str, value: &Value) -> (r: Result<Value, Value>)
    ensures
        match r {
            Ok(d) => json_put_member(json_text(document), parent@, key@, json_text(*value)) == Some(
                json_text(d),
            ),
            Err(d) => json_put_member(json_text(document), parent@, key@, json_text(*value)) is None
                && d == document,
        },
{
    let mut document = document;
    match document.pointer_mut(parent).and_then(Value::as_object_mut) {
        Some(object) => {
            object.insert(key.to_string(), value.clone());
            Ok(document)
        },
        None => Err(document),
    }
}

/// The place of the last slash of `s` before `k`; `-1` where there is none.
pub open spec fn last_slash_to(s: Seq<char>, k: int) -> int
    decreases k,
{
    if k <= 0 || k > s.len() {
        -1
    } else if s[k - 1] == '/' {
        k - 1
    } else {
        last_slash_to(s, k - 1)
    }
}

/// The new member that a pointer names, as the pointer of the object that
/// is to hold it and the name of the member: the pointer cut at its last
/// slash. Pointers without a slash, and names with a tilde, which stands
/// for an escape, name no new member.
pub open spec fn new_member(pointer: Seq<char>) -> Option<(Seq<char>, Seq<char>)> {
    let cut = last_slash_to(pointer, pointer.len() as int);
    if cut < 0 {
        None
    } else {
        let key = pointer.subrange(cut + 1, pointer.len() as int);
        if key.contains('~') {
            None
        } else {
            Some((pointer.subrange(0, cut), key))
        }
    }
}

/// The body with the compact text `body` after one replacement: the value
/// stands at the place that the pointer names, where the body has that
/// place; else it is the new member that the pointer names, where the body
/// has the object to hold it; else the replacement cannot be made.
pub open spec fn with_replacement(body: Seq<char>, pointer: Seq<char>, value: Seq<char>) -> Option<
    Seq<char>,
> {
    match json_put(body, pointer, value) {
        Some(after) => Some(after),
        None => match new_member(pointer) {
            Some((parent, key)) => json_put_member(body, parent, key, value),
            None => None,
        },
    }
}

/// The body after the replacements from place `k` on, made in their order;
/// or the place of the first replacement that cannot be made.
pub open spec fn with_replacements_from(
    body: Seq<char>,
    replacements: Seq<ExtraBodyReplacement>,
    k: int,
) -> Result<Seq<char>, int>
    decreases replacements.len() - k,
{
    if k < 0 || k >= replacements.len() {
        Ok(body)
    } else {
        match with_replacement(body, replacements[k].pointer@, json_text(replacements[k].value)) {
            Some(after) => with_replacements_from(after, replacements, k + 1),
            None => Err(k),
        }
    }
}

/// The text of the error for a replacement that cannot be made.
pub open spec fn no_place_text(pointer: Seq<char>) -> Seq<char> {
    "The pointer `"@ + pointer + "` of `extra_body` names no place in the request"@
}

fn split_pointer(pointer: &str) -> (r: Option<(String, String)>)
    ensures
        match new_member(pointer@) {
            Some((parent, key)) => r matches Some(pair) && pair.0@ == parent && pair.1@ == key,
            None => r is None,
        },
{
    let chars = chars_of(pointer);
    let n = chars.len();
    let mut k: usize = n;
    let mut tilde = false;
    while k > 0 && chars[k - 1] != '/'
        invariant
            k <= n,
            n == pointer@.len(),
            chars@ == pointer@,
            last_slash_to(pointer@, n as int) == last_slash_to(pointer@, k as int),
            tilde == pointer@.subrange(k as int, n as int).contains('~'),
        decreases k,
    {
        k = k - 1;
        proof {
            let wider = pointer@.subrange(k as int, n as int);
            let narrower = pointer@.subrange(k + 1, n as int);
            assert(wider =~= seq![pointer@[k as int]] + narrower);
            if narrower.contains('~') {
                let i = choose|i: int| 0 <= i < narrower.len() && narrower[i] == '~';
                assert(wider[i + 1] == '~');
            }
            if wider.contains('~') && pointer@[k as int] != '~' {
                let i = choose|i: int| 0 <= i < wider.len() && wider[i] == '~';
                assert(narrower[i - 1] == '~');
            }
            if pointer@[k as int] == '~' {
                assert(wider[0] == '~');
            }
        }
        if chars[k] == '~' {
            tilde = true;
        }
    }
    if k == 0 || tilde {
        return None;
    }
    let parent = pointer.substring_char(0, k - 1).to_string();
    let key = pointer.substring_char(k, n).to_string();
    Some((parent, key))
}

/// Puts the extra values of a request into the body that goes to a
/// provider, and adds its extra headers to the headers.
///
/// The values are put in their order, each at the place that its pointer
/// names: in place of what stands there, or as a new member of the object
/// that the pointer's parent names. A pointer that names neither is an
/// `InvalidRequest` error. The text of the body as it goes out, after the
/// values are in, is returned with it, to be recorded as the raw request.
pub fn inject_extra_request_data(
    body: Value,
    extra_body: &Vec<ExtraBodyReplacement>,
    headers: Vec<ExtraHeader>,
    extra_headers: &Vec<ExtraHeader>,
) -> (r: Result<(Value, Vec<ExtraHeader>, String), Error>)
    ensures
        match with_replacements_from(json_text(body), extra_body@, 0) {
            Ok(after) => {
                &&& r matches Ok(out)
                &&& json_text(out.0) == after
                &&& out.1@ == headers@ + extra_headers@
                &&& out.2@ == after
            },
            Err(k) => {
                &&& 0 <= k < extra_body@.len()
                &&& r matches Err(e)
                &&& e.is_invalid_request(no_place_text(extra_body@[k].pointer@))
            },
        },
{
    let ghost start = json_text(body);
    let mut document = body;
    let mut k: usize = 0;
    while k < extra_body.len()
        invariant
            k <= extra_body@.len(),
            start == json_text(body),
            with_replacements_from(start, extra_body@, 0) == with_replacements_from(
                json_text(document),
                extra_body@,
                k as int,
            ),
        decreases extra_body@.len() - k,
    {
        let replacement = &extra_body[k];
        let pointer = replacement.pointer.as_str();
        document = match put(document, pointer, &replacement.value) {
            Ok(after) => after,
            Err(unchanged) => {
                let inserted = match split_pointer(pointer) {
                    Some((parent, key)) => put_member(
                        unchanged,
                        parent.as_str(),
                        key.as_str(),
                        &replacement.value,
                    ),
                    None => Err(unchanged),
                };
                match inserted {
                    Ok(after) => after,
                    Err(_) => {
                        let mut message = String::from_str("The pointer `");
                        message.append(pointer);
                        message.append("` of `extra_body` names no place in the request");
                        return Err(Error::new(ErrorDetails::InvalidRequest { message }));
                    },
                }
            },
        };
        k = k + 1;
    }
    let ghost base = headers@;
    let mut all = headers;
    let mut i: usize = 0;
    proof {
        assert(base + extra_headers@.take(0) =~= base);
    }
    while i < extra_headers.len()
        invariant
            i <= extra_headers@.len(),
            base == headers@,
            all@ == base + extra_headers@.take(i as int),
        decreases extra_headers@.len() - i,
    {
        let h = &extra_headers[i];
        all.push(ExtraHeader { name: h.name.clone(), value: h.value.clone() });
        proof {
            assert(all@ =~= base + extra_headers@.take(i + 1));
        }
        i = i + 1;
    }
    proof {
        assert(extra_headers@.take(extra_headers@.len() as int) =~= extra_headers@);
    }
    let raw_request = json_to_string(&document);
    Ok((document, all, raw_request))
}

} // verus!
