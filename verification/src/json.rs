//! JSON documents as plain values, and the reading of entity lists out of them.

use vstd::prelude::*;
use crate::text::same_text;
use crate::types::{
    ApiError, Flavor, FlavorView, Flavors, Image, ImageView, Images, Server, ServerView, Servers,
};

verus! {

/// A JSON value. A number is kept as the text that stands for it.
#[derive(Debug)]
pub enum Json {
    Null,
    Bool(bool),
    Number(String),
    Text(String),
    Array(Vec<Json>),
    Object(Vec<Member>),
}

/// One `key: value` entry of a JSON object.
#[derive(Debug)]
pub struct Member {
    pub key: String,
    pub value: Json,
}

/// `serde_json::Value`, the tree that the parser builds. It is declared so
/// that it can be handed on; nothing is known here of what it holds.
#[verifier::external_type_specification]
#[verifier::external_body]
pub struct ExValue(serde_json::Value);

/// The document that a text stands for; `None` where the text is no JSON.
pub uninterp spec fn json_document(text: Seq<char>) -> Option<Json>;

/// Calls `serde_json::from_str` for a `serde_json::Value`. The contract
/// claims that the outcome depends on the text alone: a text that the parser
/// rejects gives `None`, any other the value it built, variant by variant.
#[verifier::external_body]
fn read_document(text: &str) -> (r: Option<Json>)
    ensures
        r == json_document(text@),
{
    match serde_json::from_str::<serde_json::Value>(text) {
        Ok(value) => Some(plain_value(&value)),
        Err(_) => None,
    }
}

/// Copies a `serde_json::Value` into a `Json`, variant by variant: a number
/// through `Number`'s `to_string`, an object's entries in the order of
/// `Map::iter`. Nothing is claimed of the result.
#[verifier::external_body]
fn plain_value(value: &serde_json::Value) -> Json {
    match value {
        serde_json::Value::Null => Json::Null,
        serde_json::Value::Bool(b) => Json::Bool(*b),
        serde_json::Value::Number(n) => Json::Number(n.to_string()),
        serde_json::Value::String(s) => Json::Text(s.clone()),
        serde_json::Value::Array(items) => Json::Array(items.iter().map(plain_value).collect()),
        serde_json::Value::Object(map) => Json::Object(
            map.iter().map(|(k, v)| Member { key: k.clone(), value: plain_value(v) }).collect(),
        ),
    }
}

/// The value of the first entry at or after `from` whose key is `key`.
pub open spec fn find_member(members: Seq<Member>, key: Seq<char>, from: int) -> Option<Json>
    decreases members.len() - from,
{
    if from < 0 || from >= members.len() {
        None
    } else if members[from].key@ == key {
        Some(members[from].value)
    } else {
        find_member(members, key, from + 1)
    }
}

/// The value that the object `doc` holds under `key`.
pub open spec fn field(doc: Json, key: Seq<char>) -> Option<Json> {
    match doc {
        Json::Object(members) => find_member(members@, key, 0),
        _ => None,
    }
}

/// The text that the object `doc` holds under `key`.
pub open spec fn text_field(doc: Json, key: Seq<char>) -> Option<Seq<char>> {
    match field(doc, key) {
        Some(Json::Text(s)) => Some(s@),
        _ => None,
    }
}

fn find_in<'a>(members: &'a Vec<Member>, key: &str) -> (r: Option<&'a Json>)
    ensures
        r.is_some() == find_member(members@, key@, 0).is_some(),
        r.is_some() ==> *r.unwrap() == find_member(members@, key@, 0).unwrap(),
{
    let mut i: usize = 0;
    while i < members.len()
        invariant
            i <= members.len(),
            find_member(members@, key@, 0) == find_member(members@, key@, i as int),
        decreases members.len() - i,
    {
        if same_text(&members[i].key, key) {
            return Some(&members[i].value);
        }
        i += 1;
    }
    None
}

/// Looks `key` up in the object `doc`; the first entry with that key counts.
pub fn get_field<'a>(doc: &'a Json, key: &str) -> (r: Option<&'a Json>)
    ensures
        r.is_some() == field(*doc, key@).is_some(),
        r.is_some() ==> *r.unwrap() == field(*doc, key@).unwrap(),
{
    match doc {
        Json::Object(members) => find_in(members, key),
        _ => None,
    }
}

/// Reads the text that the object `doc` holds under `key`.
pub fn get_text(doc: &Json, key: &str) -> (r: Option<String>)
    ensures
        r.is_some() == text_field(*doc, key@).is_some(),
        r.is_some() ==> r.unwrap()@ == text_field(*doc, key@).unwrap(),
{
    match get_field(doc, key) {
        Some(Json::Text(s)) => Some(s.clone()),
        _ => None,
    }
}

/// Parses `text` as one JSON document; `None` where it is none.
pub fn parse_document(text: &str) -> (r: Option<Json>)
    ensures
        r == json_document(text@),
{
    read_document(text)
}

/// The server that the object `item` describes: its members `id`, `name`,
/// `tenant_id`, `status`, each of them a text. Other members are passed over.
pub open spec fn server_model(item: Json) -> Option<ServerView> {
    if text_field(item, "id"@).is_some()
        && text_field(item, "name"@).is_some()
        && text_field(item, "tenant_id"@).is_some()
        && text_field(item, "status"@).is_some() {
        Some(ServerView {
            id: text_field(item, "id"@).unwrap(),
            name: text_field(item, "name"@).unwrap(),
            tenant_id: text_field(item, "tenant_id"@).unwrap(),
            status: text_field(item, "status"@).unwrap(),
        })
    } else {
        None
    }
}

/// Reads a server out of one element of a list.
pub fn decode_server(item: &Json) -> (r: Option<Server>)
    ensures
        r.is_some() == server_model(*item).is_some(),
        r.is_some() ==> r.unwrap()@ == server_model(*item).unwrap(),
{
    let id = match get_text(item, "id") {
        Some(t) => t,
        None => {
            return None;
        },
    };
    let name = match get_text(item, "name") {
        Some(t) => t,
        None => {
            return None;
        },
    };
    let tenant_id = match get_text(item, "tenant_id") {
        Some(t) => t,
        None => {
            return None;
        },
    };
    let status = match get_text(item, "status") {
        Some(t) => t,
        None => {
            return None;
        },
    };
    Some(Server { id, name, tenant_id, status })
}

/// The servers that `items` describe, in their order; `None` where one of
/// them describes none.
pub open spec fn server_list_model(items: Seq<Json>) -> Option<Seq<ServerView>> {
    if forall|i: int| 0 <= i < items.len() ==> (#[trigger] server_model(items[i])).is_some() {
        Some(Seq::new(items.len(), |i: int| server_model(items[i]).unwrap()))
    } else {
        None
    }
}

fn decode_server_list(items: &Vec<Json>) -> (r: Option<Vec<Server>>)
    ensures
        r.is_some() == server_list_model(items@).is_some(),
        r.is_some() ==> Seq::new(r.unwrap()@.len(), |i: int| r.unwrap()@[i]@)
            == server_list_model(items@).unwrap(),
{
    let mut out: Vec<Server> = Vec::new();
    let mut i: usize = 0;
    while i < items.len()
        invariant
            i <= items.len(),
            out@.len() == i,
            forall|k: int| 0 <= k < i ==> (#[trigger] server_model(items@[k])) == Some(out@[k]@),
        decreases items.len() - i,
    {
        match decode_server(&items[i]) {
            Some(entity) => {
                out.push(entity);
            },
            None => {
                return None;
            },
        }
        i += 1;
    }
    assert(Seq::new(out@.len(), |i: int| out@[i]@) =~= server_list_model(items@).unwrap());
    Some(out)
}

/// The servers that the envelope `doc` lists under `servers`.
pub open spec fn servers_model(doc: Json) -> Option<Seq<ServerView>> {
    match field(doc, "servers"@) {
        Some(Json::Array(items)) => server_list_model(items@),
        _ => None,
    }
}

/// Reads the envelope `doc`: an object whose member `servers` is an array of
/// servers. Returns them in the order of the array, or `None` where `doc` has
/// another shape.
pub fn decode_servers(doc: &Json) -> (r: Option<Servers>)
    ensures
        r.is_some() == servers_model(*doc).is_some(),
        r.is_some() ==> r.unwrap()@ == servers_model(*doc).unwrap(),
{
    match get_field(doc, "servers") {
        Some(Json::Array(items)) => match decode_server_list(items) {
            Some(servers) => Some(Servers { servers }),
            None => None,
        },
        _ => None,
    }
}

/// What the text of an answer lists as servers: the text must be a JSON
/// document, and the document an envelope of servers.
pub open spec fn servers_of_text(text: Seq<char>) -> Option<Seq<ServerView>> {
    match json_document(text) {
        Some(doc) => servers_model(doc),
        None => None,
    }
}

/// Parses the body of an answer that lists servers. A body that is no JSON,
/// or no envelope of servers, gives `ApiError::ResponseShape`.
pub fn parse_servers(text: &str) -> (r: Result<Servers, ApiError>)
    ensures
        match r {
            Ok(list) => servers_of_text(text@) == Some(list@),
            Err(e) => e == ApiError::ResponseShape && servers_of_text(text@).is_none(),
        },
{
    match read_document(text) {
        Some(doc) => match decode_servers(&doc) {
            Some(list) => Ok(list),
            None => Err(ApiError::ResponseShape),
        },
        None => Err(ApiError::ResponseShape),
    }
}

/// The flavor that the object `item` describes: its members `id`, `name`,
/// each of them a text. Other members are passed over.
pub open spec fn flavor_model(item: Json) -> Option<FlavorView> {
    if text_field(item, "id"@).is_some()
        && text_field(item, "name"@).is_some() {
        Some(FlavorView {
            id: text_field(item, "id"@).unwrap(),
            name: text_field(item, "name"@).unwrap(),
        })
    } else {
        None
    }
}

/// Reads a flavor out of one element of a list.
pub fn decode_flavor(item: &Json) -> (r: Option<Flavor>)
    ensures
        r.is_some() == flavor_model(*item).is_some(),
        r.is_some() ==> r.unwrap()@ == flavor_model(*item).unwrap(),
{
    let id = match get_text(item, "id") {
        Some(t) => t,
        None => {
            return None;
        },
    };
    let name = match get_text(item, "name") {
        Some(t) => t,
        None => {
            return None;
        },
    };
    Some(Flavor { id, name })
}

/// The flavors that `items` describe, in their order; `None` where one of
/// them describes none.
pub open spec fn flavor_list_model(items: Seq<Json>) -> Option<Seq<FlavorView>> {
    if forall|i: int| 0 <= i < items.len() ==> (#[trigger] flavor_model(items[i])).is_some() {
        Some(Seq::new(items.len(), |i: int| flavor_model(items[i]).unwrap()))
    } else {
        None
    }
}

fn decode_flavor_list(items: &Vec<Json>) -> (r: Option<Vec<Flavor>>)
    ensures
        r.is_some() == flavor_list_model(items@).is_some(),
        r.is_some() ==> Seq::new(r.unwrap()@.len(), |i: int| r.unwrap()@[i]@)
            == flavor_list_model(items@).unwrap(),
{
    let mut out: Vec<Flavor> = Vec::new();
    let mut i: usize = 0;
    while i < items.len()
        invariant
            i <= items.len(),
            out@.len() == i,
            forall|k: int| 0 <= k < i ==> (#[trigger] flavor_model(items@[k])) == Some(out@[k]@),
        decreases items.len() - i,
    {
        match decode_flavor(&items[i]) {
            Some(entity) => {
                out.push(entity);
            },
            None => {
                return None;
            },
        }
        i += 1;
    }
    assert(Seq::new(out@.len(), |i: int| out@[i]@) =~= flavor_list_model(items@).unwrap());
    Some(out)
}

/// The flavors that the envelope `doc` lists under `flavors`.
pub open spec fn flavors_model(doc: Json) -> Option<Seq<FlavorView>> {
    match field(doc, "flavors"@) {
        Some(Json::Array(items)) => flavor_list_model(items@),
        _ => None,
    }
}

/// Reads the envelope `doc`: an object whose member `flavors` is an array of
/// flavors. Returns them in the order of the array, or `None` where `doc` has
/// another shape.
pub fn decode_flavors(doc: &Json) -> (r: Option<Flavors>)
    ensures
        r.is_some() == flavors_model(*doc).is_some(),
        r.is_some() ==> r.unwrap()@ == flavors_model(*doc).unwrap(),
{
    match get_field(doc, "flavors") {
        Some(Json::Array(items)) => match decode_flavor_list(items) {
            Some(flavors) => Some(Flavors { flavors }),
            None => None,
        },
        _ => None,
    }
}

/// What the text of an answer lists as flavors: the text must be a JSON
/// document, and the document an envelope of flavors.
pub open spec fn flavors_of_text(text: Seq<char>) -> Option<Seq<FlavorView>> {
    match json_document(text) {
        Some(doc) => flavors_model(doc),
        None => None,
    }
}

/// Parses the body of an answer that lists flavors. A body that is no JSON,
/// or no envelope of flavors, gives `ApiError::ResponseShape`.
pub fn parse_flavors(text: &str) -> (r: Result<Flavors, ApiError>)
    ensures
        match r {
            Ok(list) => flavors_of_text(text@) == Some(list@),
            Err(e) => e == ApiError::ResponseShape && flavors_of_text(text@).is_none(),
        },
{
    match read_document(text) {
        Some(doc) => match decode_flavors(&doc) {
            Some(list) => Ok(list),
            None => Err(ApiError::ResponseShape),
        },
        None => Err(ApiError::ResponseShape),
    }
}

/// The image that the object `item` describes: its members `id`, `name`,
/// each of them a text. Other members are passed over.
pub open spec fn image_model(item: Json) -> Option<ImageView> {
    if text_field(item, "id"@).is_some()
        && text_field(item, "name"@).is_some() {
        Some(ImageView {
            id: text_field(item, "id"@).unwrap(),
            name: text_field(item, "name"@).unwrap(),
        })
    } else {
        None
    }
}

/// Reads an image out of one element of a list.
pub fn decode_image(item: &Json) -> (r: Option<Image>)
    ensures
        r.is_some() == image_model(*item).is_some(),
        r.is_some() ==> r.unwrap()@ == image_model(*item).unwrap(),
{
    let id = match get_text(item, "id") {
        Some(t) => t,
        None => {
            return None;
        },
    };
    let name = match get_text(item, "name") {
        Some(t) => t,
        None => {
            return None;
        },
    };
    Some(Image { id, name })
}

/// The images that `items` describe, in their order; `None` where one of
/// them describes none.
pub open spec fn image_list_model(items: Seq<Json>) -> Option<Seq<ImageView>> {
    if forall|i: int| 0 <= i < items.len() ==> (#[trigger] image_model(items[i])).is_some() {
        Some(Seq::new(items.len(), |i: int| image_model(items[i]).unwrap()))
    } else {
        None
    }
}

fn decode_image_list(items: &Vec<Json>) -> (r: Option<Vec<Image>>)
    ensures
        r.is_some() == image_list_model(items@).is_some(),
        r.is_some() ==> Seq::new(r.unwrap()@.len(), |i: int| r.unwrap()@[i]@)
            == image_list_model(items@).unwrap(),
{
    let mut out: Vec<Image> = Vec::new();
    let mut i: usize = 0;
    while i < items.len()
        invariant
            i <= items.len(),
            out@.len() == i,
            forall|k: int| 0 <= k < i ==> (#[trigger] image_model(items@[k])) == Some(out@[k]@),
        decreases items.len() - i,
    {
        match decode_image(&items[i]) {
            Some(entity) => {
                out.push(entity);
            },
            None => {
                return None;
            },
        }
        i += 1;
    }
    assert(Seq::new(out@.len(), |i: int| out@[i]@) =~= image_list_model(items@).unwrap());
    Some(out)
}

/// The images that the envelope `doc` lists under `images`.
pub open spec fn images_model(doc: Json) -> Option<Seq<ImageView>> {
    match field(doc, "images"@) {
        Some(Json::Array(items)) => image_list_model(items@),
        _ => None,
    }
}

/// Reads the envelope `doc`: an object whose member `images` is an array of
/// images. Returns them in the order of the array, or `None` where `doc` has
/// another shape.
pub fn decode_images(doc: &Json) -> (r: Option<Images>)
    ensures
        r.is_some() == images_model(*doc).is_some(),
        r.is_some() ==> r.unwrap()@ == images_model(*doc).unwrap(),
{
    match get_field(doc, "images") {
        Some(Json::Array(items)) => match decode_image_list(items) {
            Some(images) => Some(Images { images }),
            None => None,
        },
        _ => None,
    }
}

/// What the text of an answer lists as images: the text must be a JSON
/// document, and the document an envelope of images.
pub open spec fn images_of_text(text: Seq<char>) -> Option<Seq<ImageView>> {
    match json_document(text) {
        Some(doc) => images_model(doc),
        None => None,
    }
}

/// Parses the body of an answer that lists images. A body that is no JSON,
/// or no envelope of images, gives `ApiError::ResponseShape`.
pub fn parse_images(text: &str) -> (r: Result<Images, ApiError>)
    ensures
        match r {
            Ok(list) => images_of_text(text@) == Some(list@),
            Err(e) => e == ApiError::ResponseShape && images_of_text(text@).is_none(),
        },
{
    match read_document(text) {
        Some(doc) => match decode_images(&doc) {
            Some(list) => Ok(list),
            None => Err(ApiError::ResponseShape),
        },
        None => Err(ApiError::ResponseShape),
    }
}

/// A listing keeps the order of the answer: entry `i` of the list is what
/// element `i` of the array under `servers` describes, and nothing is left
/// out or added.
pub proof fn lemma_servers_keep_their_order(doc: Json, items: Vec<Json>, list: Seq<ServerView>)
    requires
        field(doc, "servers"@) == Some(Json::Array(items)),
        servers_model(doc) == Some(list),
    ensures
        list.len() == items@.len(),
        forall|i: int| 0 <= i < list.len() ==> server_model(items@[i]) == Some(#[trigger] list[i]),
{
}

/// As `lemma_servers_keep_their_order`, for flavors.
pub proof fn lemma_flavors_keep_their_order(doc: Json, items: Vec<Json>, list: Seq<FlavorView>)
    requires
        field(doc, "flavors"@) == Some(Json::Array(items)),
        flavors_model(doc) == Some(list),
    ensures
        list.len() == items@.len(),
        forall|i: int| 0 <= i < list.len() ==> flavor_model(items@[i]) == Some(#[trigger] list[i]),
{
}

/// As `lemma_servers_keep_their_order`, for images.
pub proof fn lemma_images_keep_their_order(doc: Json, items: Vec<Json>, list: Seq<ImageView>)
    requires
        field(doc, "images"@) == Some(Json::Array(items)),
        images_model(doc) == Some(list),
    ensures
        list.len() == items@.len(),
        forall|i: int| 0 <= i < list.len() ==> image_model(items@[i]) == Some(#[trigger] list[i]),
{
}

} // verus!
