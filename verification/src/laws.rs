//! What holds of the decoder on every document: which documents it accepts,
//! and what it makes of a field that a document leaves out.

use vstd::prelude::*;
use crate::decode::{
    decode_bindings, decode_catalog, decode_credentials, decode_entries, decode_service, port_field,
    text_field, ACCESS_TOKEN_URI, API_URI, BINDING_NAME, CLIENT_ID, CLIENT_SECRET, CREDENTIALS,
    HOSTNAME, INSTANCE_NAME, JDBC_URL, LABEL, LICENSE_KEY, NAME, PASSWORD, PORT, URI, USERNAME,
};
use crate::json::{field, json_of_text, Json};
use crate::services::catalog_of_text;

verus! {

/// Whether an object leaves the field called `key` out or holds a text in it.
pub open spec fn text_or_absent(fields: Seq<(String, Json)>, key: Seq<char>) -> bool {
    match field(fields, key) {
        None => true,
        Some(Json::String(_)) => true,
        Some(_) => false,
    }
}

/// Whether an object leaves the field called `key` out or holds in it an
/// integer that an `i16` holds.
pub open spec fn port_or_absent(fields: Seq<(String, Json)>, key: Seq<char>) -> bool {
    match field(fields, key) {
        None => true,
        Some(Json::Number(Some(number))) => i16::MIN <= number <= i16::MAX,
        Some(_) => false,
    }
}

/// Whether a document has the shape of credentials: an object in which each
/// known field is left out or holds a value of its kind.
pub open spec fn is_credentials(json: Json) -> bool {
    match json {
        Json::Object(fields) => {
            let f = fields@;
            &&& text_or_absent(f, URI@)
            &&& text_or_absent(f, JDBC_URL@)
            &&& text_or_absent(f, API_URI@)
            &&& text_or_absent(f, LICENSE_KEY@)
            &&& text_or_absent(f, CLIENT_SECRET@)
            &&& text_or_absent(f, CLIENT_ID@)
            &&& text_or_absent(f, ACCESS_TOKEN_URI@)
            &&& text_or_absent(f, HOSTNAME@)
            &&& text_or_absent(f, USERNAME@)
            &&& text_or_absent(f, PASSWORD@)
            &&& port_or_absent(f, PORT@)
            &&& text_or_absent(f, NAME@)
        },
        _ => false,
    }
}

/// Whether a document has the shape of a binding: an object with credentials
/// in which each of the four texts is left out or is a text.
pub open spec fn is_binding(json: Json) -> bool {
    match json {
        Json::Object(fields) => {
            let f = fields@;
            &&& text_or_absent(f, NAME@)
            &&& text_or_absent(f, INSTANCE_NAME@)
            &&& text_or_absent(f, BINDING_NAME@)
            &&& text_or_absent(f, LABEL@)
            &&& match field(f, CREDENTIALS@) {
                Some(inner) => is_credentials(inner),
                None => false,
            }
        },
        _ => false,
    }
}

/// Whether a document is an array of which every item has the shape of a
/// binding.
pub open spec fn is_binding_list(json: Json) -> bool {
    match json {
        Json::Array(items) => forall|j: int| 0 <= j < items@.len() ==> #[trigger] is_binding(items@[j]),
        _ => false,
    }
}

/// Whether a document has the shape of a catalog: an object of which every
/// field holds an array of bindings.
pub open spec fn is_catalog(json: Json) -> bool {
    match json {
        Json::Object(fields) => forall|i: int|
            0 <= i < fields@.len() ==> is_binding_list((#[trigger] fields@[i]).1),
        _ => false,
    }
}

/// Credentials decode exactly from the documents that have their shape.
pub proof fn law_credentials_decode(json: Json)
    ensures
        decode_credentials(json) is Some <==> is_credentials(json),
{
}

/// A binding decodes exactly from the documents that have its shape.
pub proof fn law_binding_decodes(json: Json)
    ensures
        decode_service(json) is Some <==> is_binding(json),
{
    if let Json::Object(fields) = json {
        if let Some(inner) = field(fields@, CREDENTIALS@) {
            law_credentials_decode(inner);
        }
    }
}

/// An array of bindings decodes exactly where each item has the shape of a
/// binding.
pub proof fn law_binding_list_decodes(items: Vec<Json>)
    ensures
        decode_bindings(items@) is Some <==> is_binding_list(Json::Array(items)),
{
    if decode_bindings(items@) is Some {
        assert forall|j: int| 0 <= j < items@.len() implies #[trigger] is_binding(items@[j]) by {
            assert(decode_service(items@[j]) is Some);
            law_binding_decodes(items@[j]);
        }
    }
    if is_binding_list(Json::Array(items)) {
        assert(Json::Array(items)->Array_0 == items);
        assert forall|j: int| 0 <= j < items@.len() implies (#[trigger] decode_service(
            items@[j],
        )) is Some by {
            assert(is_binding(items@[j]));
            law_binding_decodes(items@[j]);
        }
    }
}

/// The fields of the outermost object decode exactly where each of them holds
/// an array of bindings.
pub proof fn law_entries_decode(fields: Seq<(String, Json)>)
    ensures
        decode_entries(fields) is Some <==> forall|i: int|
            0 <= i < fields.len() ==> is_binding_list((#[trigger] fields[i]).1),
    decreases fields.len(),
{
    if fields.len() > 0 {
        let earlier = fields.drop_last();
        law_entries_decode(earlier);
        if let Json::Array(items) = fields.last().1 {
            law_binding_list_decodes(items);
        }
        if decode_entries(fields) is Some {
            assert forall|i: int| 0 <= i < fields.len() implies is_binding_list(
                (#[trigger] fields[i]).1,
            ) by {
                if i < fields.len() - 1 {
                    assert(earlier[i] == fields[i]);
                }
            }
        }
        if forall|i: int| 0 <= i < fields.len() ==> is_binding_list((#[trigger] fields[i]).1) {
            assert forall|i: int| 0 <= i < earlier.len() implies is_binding_list(
                (#[trigger] earlier[i]).1,
            ) by {
                assert(earlier[i] == fields[i]);
            }
            assert(is_binding_list(fields[fields.len() - 1].1));
        }
    }
}

/// Every document that has the shape of a catalog decodes, and no other does.
pub proof fn law_catalog_decodes(json: Json)
    ensures
        decode_catalog(json) is Some <==> is_catalog(json),
{
    if let Json::Object(fields) = json {
        law_entries_decode(fields@);
    }
}

/// A text holds a catalog exactly where it is a JSON document that has the
/// shape of one.
pub proof fn law_text_decodes(text: Seq<char>)
    ensures
        catalog_of_text(text) is Some <==> (json_of_text(text) matches Some(json) && is_catalog(json)),
{
    if let Some(json) = json_of_text(text) {
        law_catalog_decodes(json);
    }
}

/// A text that credentials leave out is empty in what they decode to, and a
/// port that they leave out is zero.
pub proof fn law_absent_credentials_fields_default(fields: Vec<(String, Json)>)
    requires
        is_credentials(Json::Object(fields)),
    ensures
        decode_credentials(Json::Object(fields)) is Some,
        ({
            let f = fields@;
            let c = decode_credentials(Json::Object(fields)).unwrap();
            &&& field(f, URI@) is None ==> c.uri == Seq::<char>::empty()
            &&& field(f, JDBC_URL@) is None ==> c.jdbc_url == Seq::<char>::empty()
            &&& field(f, API_URI@) is None ==> c.api_uri == Seq::<char>::empty()
            &&& field(f, LICENSE_KEY@) is None ==> c.license_key == Seq::<char>::empty()
            &&& field(f, CLIENT_SECRET@) is None ==> c.client_secret == Seq::<char>::empty()
            &&& field(f, CLIENT_ID@) is None ==> c.client_id == Seq::<char>::empty()
            &&& field(f, ACCESS_TOKEN_URI@) is None ==> c.access_token_uri == Seq::<char>::empty()
            &&& field(f, HOSTNAME@) is None ==> c.hostname == Seq::<char>::empty()
            &&& field(f, USERNAME@) is None ==> c.username == Seq::<char>::empty()
            &&& field(f, PASSWORD@) is None ==> c.password == Seq::<char>::empty()
            &&& field(f, PORT@) is None ==> c.port == 0
            &&& field(f, NAME@) is None ==> c.name == Seq::<char>::empty()
        }),
{
}

/// A text that a binding leaves out is empty in what it decodes to.
pub proof fn law_absent_binding_fields_default(fields: Vec<(String, Json)>)
    requires
        is_binding(Json::Object(fields)),
    ensures
        decode_service(Json::Object(fields)) is Some,
        ({
            let f = fields@;
            let s = decode_service(Json::Object(fields)).unwrap();
            &&& field(f, NAME@) is None ==> s.name == Seq::<char>::empty()
            &&& field(f, INSTANCE_NAME@) is None ==> s.instance_name == Seq::<char>::empty()
            &&& field(f, BINDING_NAME@) is None ==> s.binding_name == Seq::<char>::empty()
            &&& field(f, LABEL@) is None ==> s.label == Seq::<char>::empty()
        }),
{
    law_binding_decodes(Json::Object(fields));
}

/// A document in which some binding has no credentials does not decode.
pub proof fn law_missing_credentials_rejected(
    fields: Vec<(String, Json)>,
    i: int,
    items: Vec<Json>,
    j: int,
    binding: Vec<(String, Json)>,
)
    requires
        0 <= i < fields@.len(),
        fields@[i].1 == Json::Array(items),
        0 <= j < items@.len(),
        items@[j] == Json::Object(binding),
        field(binding@, CREDENTIALS@) is None,
    ensures
        decode_catalog(Json::Object(fields)) is None,
{
    law_catalog_decodes(Json::Object(fields));
    assert(fields@[i].1->Array_0 == items);
    assert(!is_binding(items@[j]));
}

/// A document in which a service type holds anything but an array does not
/// decode.
pub proof fn law_non_array_rejected(fields: Vec<(String, Json)>, i: int)
    requires
        0 <= i < fields@.len(),
        !(fields@[i].1 is Array),
    ensures
        decode_catalog(Json::Object(fields)) is None,
{
    law_catalog_decodes(Json::Object(fields));
    assert(!is_binding_list(fields@[i].1));
}

} // verus!
