//! The control channel: the one request that this library sends to the engine.
//!
//! The request is a JSON document. It is put together and written out by
//! `serde_json`; what that crate does is stated here and not proved.

use vstd::prelude::*;

verus! {

/// A JSON document, as far as the control channel needs one: a text, or an object
/// whose members are documents.
pub enum Json {
    Text(Seq<char>),
    Object(Map<Seq<char>, Json>),
}

/// `serde_json::Value`, taken as it is: nothing is said of what a value holds.
#[verifier::external_type_specification]
#[verifier::external_body]
pub struct ExJsonValue(serde_json::Value);

/// `serde_json::Map`, taken as it is: what a map holds is known by `object_members` alone.
#[verifier::external_type_specification]
#[verifier::external_body]
#[verifier::reject_recursive_types(K)]
#[verifier::reject_recursive_types(V)]
pub struct ExJsonMap<K, V>(serde_json::Map<K, V>);

/// The members of an object without members.
pub open spec fn no_members() -> Map<Seq<char>, Json> {
    Map::empty()
}

/// The members that a `serde_json::Map` holds, each under its key.
pub uninterp spec fn object_members(object: serde_json::Map<String, serde_json::Value>) -> Map<
    Seq<char>,
    Json,
>;

/// The text that `serde_json` writes for a document in its compact form.
pub uninterp spec fn json_text(document: Json) -> Seq<char>;

/// `serde_json::Map::new`: the new map holds no member.
#[verifier::external_body]
fn empty_object() -> (object: serde_json::Map<String, serde_json::Value>)
    ensures
        object_members(object) == no_members(),
{
    serde_json::Map::new()
}

/// `serde_json::Map::insert` with a `Value::String`: afterwards the map holds the
/// text under `key`, in place of what it held there, and its other members as before.
#[verifier::external_body]
fn put_text(object: &mut serde_json::Map<String, serde_json::Value>, key: &str, text: &str)
    ensures
        object_members(*final(object)) == object_members(*old(object)).insert(
            key@,
            Json::Text(text@),
        ),
{
    object.insert(key.to_owned(), serde_json::Value::String(text.to_owned()));
}

/// `serde_json::Map::insert` with a `Value::Object`: afterwards the map holds the
/// object `member` under `key`, in place of what it held there, and its other
/// members as before.
#[verifier::external_body]
fn put_object(
    object: &mut serde_json::Map<String, serde_json::Value>,
    key: &str,
    member: serde_json::Map<String, serde_json::Value>,
)
    ensures
        object_members(*final(object)) == object_members(*old(object)).insert(
            key@,
            Json::Object(object_members(member)),
        ),
{
    object.insert(key.to_owned(), serde_json::Value::Object(member));
}

/// `to_string` of a `serde_json::Value::Object`: the compact JSON text of the
/// object. It depends on the members alone: the map keeps them sorted by key.
#[verifier::external_body]
fn render(object: serde_json::Map<String, serde_json::Value>) -> (text: String)
    ensures
        text@ == json_text(Json::Object(object_members(object))),
{
    serde_json::Value::Object(object).to_string()
}

/// The request that asks the engine to close: the operation `close` under the
/// identifier `close`, with no parameters.
pub open spec fn close_request() -> Json {
    Json::Object(
        map![
            "id"@ => Json::Text("close"@),
            "method"@ => Json::Text("close"@),
            "params"@ => Json::Object(no_members()),
        ],
    )
}

/// The text of the close request, as it is sent over the control channel.
pub fn construct_close_message() -> (message: String)
    ensures
        message@ == json_text(close_request()),
{
    let mut request = empty_object();
    put_text(&mut request, "id", "close");
    put_text(&mut request, "method", "close");
    put_object(&mut request, "params", empty_object());
    assert(object_members(request) =~= map![
        "id"@ => Json::Text("close"@),
        "method"@ => Json::Text("close"@),
        "params"@ => Json::Object(no_members()),
    ]);
    render(request)
}

} // verus!
