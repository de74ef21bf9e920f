//! From the catalog of bound services back to a JSON document, and the proof
//! that the decoder reads from that document what was written.

use vstd::prelude::*;
use crate::catalog::{entries_map, ServiceCatalog};
use crate::decode::{
    decode_bindings, decode_catalog, decode_credentials, decode_entries, decode_service,
    ACCESS_TOKEN_URI, API_URI, BINDING_NAME, CLIENT_ID, CLIENT_SECRET, CREDENTIALS, HOSTNAME,
    INSTANCE_NAME, JDBC_URL, LABEL, LICENSE_KEY, NAME, PASSWORD, PORT, URI, USERNAME,
};
use crate::json::{field, Json};
use crate::model::{bindings_view, Credentials, CredentialsView, Service, ServiceView};

verus! {

/// Whether field `i` of an object is called `key` and holds the text `text`.
pub open spec fn holds_text(fields: Seq<(String, Json)>, i: int, key: Seq<char>, text: Seq<char>) -> bool {
    fields[i].0@ == key && (fields[i].1 matches Json::String(held) && held@ == text)
}

/// Whether a document is the written form of credentials: an object of the
/// twelve fields under their names in a document, each once.
pub open spec fn encodes_credentials(json: Json, c: CredentialsView) -> bool {
    json matches Json::Object(fields) && {
        let f = fields@;
        &&& f.len() == 12
        &&& holds_text(f, 0, URI@, c.uri)
        &&& holds_text(f, 1, JDBC_URL@, c.jdbc_url)
        &&& holds_text(f, 2, API_URI@, c.api_uri)
        &&& holds_text(f, 3, LICENSE_KEY@, c.license_key)
        &&& holds_text(f, 4, CLIENT_SECRET@, c.client_secret)
        &&& holds_text(f, 5, CLIENT_ID@, c.client_id)
        &&& holds_text(f, 6, ACCESS_TOKEN_URI@, c.access_token_uri)
        &&& holds_text(f, 7, HOSTNAME@, c.hostname)
        &&& holds_text(f, 8, USERNAME@, c.username)
        &&& holds_text(f, 9, PASSWORD@, c.password)
        &&& f[10].0@ == PORT@
        &&& f[10].1 == Json::Number(Some(c.port as i64))
        &&& holds_text(f, 11, NAME@, c.name)
    }
}

/// Whether a document is the written form of a binding: an object of its
/// four texts and its credentials, each once.
pub open spec fn encodes_service(json: Json, s: ServiceView) -> bool {
    json matches Json::Object(fields) && {
        let f = fields@;
        &&& f.len() == 5
        &&& holds_text(f, 0, NAME@, s.name)
        &&& holds_text(f, 1, INSTANCE_NAME@, s.instance_name)
        &&& holds_text(f, 2, BINDING_NAME@, s.binding_name)
        &&& f[3].0@ == CREDENTIALS@
        &&& encodes_credentials(f[3].1, s.credentials)
        &&& holds_text(f, 4, LABEL@, s.label)
    }
}

/// Whether a document is the written form of a list of bindings: an array of
/// their written forms, in the list's order.
pub open spec fn encodes_bindings(json: Json, bindings: Seq<ServiceView>) -> bool {
    json matches Json::Array(items) && items@.len() == bindings.len() && (forall|i: int|
        0 <= i < bindings.len() ==> encodes_service(#[trigger] items@[i], bindings[i]))
}

/// The lengths of the field names, and the first letter of those that have a
/// length in common: no two fields of one object share a name.
pub proof fn lemma_wire_names()
    ensures
        URI@.len() == 3,
        JDBC_URL@.len() == 7,
        API_URI@.len() == 12,
        LICENSE_KEY@.len() == 10,
        CLIENT_SECRET@.len() == 13,
        CLIENT_ID@.len() == 9,
        ACCESS_TOKEN_URI@.len() == 16,
        HOSTNAME@.len() == 8 && HOSTNAME@[0] == 'h',
        USERNAME@.len() == 8 && USERNAME@[0] == 'u',
        PASSWORD@.len() == 8 && PASSWORD@[0] == 'p',
        PORT@.len() == 4 && PORT@[0] == 'p',
        NAME@.len() == 4 && NAME@[0] == 'n',
        INSTANCE_NAME@.len() == 13,
        BINDING_NAME@.len() == 12,
        CREDENTIALS@.len() == 11,
        LABEL@.len() == 5,
{
    reveal_strlit("uri");
    reveal_strlit("jdbcUrl");
    reveal_strlit("http_api_uri");
    reveal_strlit("licenseKey");
    reveal_strlit("client_secret");
    reveal_strlit("client_id");
    reveal_strlit("access_token_uri");
    reveal_strlit("hostname");
    reveal_strlit("username");
    reveal_strlit("password");
    reveal_strlit("port");
    reveal_strlit("name");
    reveal_strlit("instance_name");
    reveal_strlit("binding_name");
    reveal_strlit("credentials");
    reveal_strlit("label");
}

/// The field called `key` is the one at `i` where no later field has that
/// name.
pub proof fn lemma_field_at(fields: Seq<(String, Json)>, key: Seq<char>, i: int)
    requires
        0 <= i < fields.len(),
        fields[i].0@ == key,
        forall|j: int| i < j < fields.len() ==> (#[trigger] fields[j]).0@ != key,
    ensures
        field(fields, key) == Some(fields[i].1),
    decreases fields.len(),
{
    if i < fields.len() - 1 {
        assert(fields.last() == fields[fields.len() - 1]);
        lemma_field_at(fields.drop_last(), key, i);
    }
}

/// Decoding the written form of credentials gives the credentials again.
pub proof fn law_credentials_round_trip(json: Json, c: CredentialsView)
    requires
        encodes_credentials(json, c),
    ensures
        decode_credentials(json) == Some(c),
{
    lemma_wire_names();
    let f = json->Object_0@;
    lemma_field_at(f, URI@, 0);
    lemma_field_at(f, JDBC_URL@, 1);
    lemma_field_at(f, API_URI@, 2);
    lemma_field_at(f, LICENSE_KEY@, 3);
    lemma_field_at(f, CLIENT_SECRET@, 4);
    lemma_field_at(f, CLIENT_ID@, 5);
    lemma_field_at(f, ACCESS_TOKEN_URI@, 6);
    lemma_field_at(f, HOSTNAME@, 7);
    lemma_field_at(f, USERNAME@, 8);
    lemma_field_at(f, PASSWORD@, 9);
    lemma_field_at(f, PORT@, 10);
    lemma_field_at(f, NAME@, 11);
}

/// Decoding the written form of a binding gives the binding again.
pub proof fn law_service_round_trip(json: Json, s: ServiceView)
    requires
        encodes_service(json, s),
    ensures
        decode_service(json) == Some(s),
{
    lemma_wire_names();
    let f = json->Object_0@;
    lemma_field_at(f, NAME@, 0);
    lemma_field_at(f, INSTANCE_NAME@, 1);
    lemma_field_at(f, BINDING_NAME@, 2);
    lemma_field_at(f, CREDENTIALS@, 3);
    lemma_field_at(f, LABEL@, 4);
    law_credentials_round_trip(f[3].1, s.credentials);
}

/// Decoding the written form of a list of bindings gives the list again.
pub proof fn law_bindings_round_trip(json: Json, bindings: Seq<ServiceView>)
    requires
        encodes_bindings(json, bindings),
    ensures
        json is Array,
        decode_bindings(json->Array_0@) == Some(bindings),
{
    let items = json->Array_0@;
    assert forall|i: int| 0 <= i < items.len() implies (#[trigger] decode_service(items[i])) == Some(
        bindings[i],
    ) by {
        law_service_round_trip(items[i], bindings[i]);
    }
    assert(decode_bindings(items).unwrap() =~= bindings);
}

fn text_entry(key: &str, text: &String) -> (entry: (String, Json))
    ensures
        entry.0@ == key@,
        (entry.1 matches Json::String(held) && held@ == text@),
{
    (key.to_owned(), Json::String(text.clone()))
}

/// Writes credentials as a document.
pub fn write_credentials(credentials: &Credentials) -> (json: Json)
    ensures
        encodes_credentials(json, credentials@),
{
    let mut fields: Vec<(String, Json)> = Vec::new();
    fields.push(text_entry(URI, &credentials.uri));
    fields.push(text_entry(JDBC_URL, &credentials.jdbc_url));
    fields.push(text_entry(API_URI, &credentials.api_uri));
    fields.push(text_entry(LICENSE_KEY, &credentials.license_key));
    fields.push(text_entry(CLIENT_SECRET, &credentials.client_secret));
    fields.push(text_entry(CLIENT_ID, &credentials.client_id));
    fields.push(text_entry(ACCESS_TOKEN_URI, &credentials.access_token_uri));
    fields.push(text_entry(HOSTNAME, &credentials.hostname));
    fields.push(text_entry(USERNAME, &credentials.username));
    fields.push(text_entry(PASSWORD, &credentials.password));
    fields.push((PORT.to_owned(), Json::Number(Some(credentials.port as i64))));
    fields.push(text_entry(NAME, &credentials.name));
    Json::Object(fields)
}

/// Writes a binding as a document.
pub fn write_service(service: &Service) -> (json: Json)
    ensures
        encodes_service(json, service@),
{
    let mut fields: Vec<(String, Json)> = Vec::new();
    fields.push(text_entry(NAME, &service.name));
    fields.push(text_entry(INSTANCE_NAME, &service.instance_name));
    fields.push(text_entry(BINDING_NAME, &service.binding_name));
    fields.push((CREDENTIALS.to_owned(), write_credentials(&service.credentials)));
    fields.push(text_entry(LABEL, &service.label));
    Json::Object(fields)
}

/// Writes a list of bindings as a document.
pub fn write_bindings(bindings: &Vec<Service>) -> (json: Json)
    ensures
        encodes_bindings(json, bindings_view(bindings@)),
{
    let mut items: Vec<Json> = Vec::new();
    let mut i: usize = 0;
    while i < bindings.len()
        invariant
            i <= bindings.len(),
            items.len() == i,
            forall|j: int| 0 <= j < i ==> encodes_service(#[trigger] items@[j], bindings@[j]@),
        decreases bindings.len() - i,
    {
        items.push(write_service(&bindings[i]));
        i = i + 1;
    }
    let json = Json::Array(items);
    assert(json->Array_0 == items);
    json
}

/// Writes a catalog as a document: an object with a field for each service
/// type, which holds the array of its bindings. Decoding the document gives
/// the catalog again.
pub fn encode_services(catalog: &ServiceCatalog) -> (json: Json)
    ensures
        json is Object,
        decode_catalog(json) == Some(catalog@),
{
    let entries = catalog.entries();
    let mut fields: Vec<(String, Json)> = Vec::new();
    let mut i: usize = 0;
    while i < entries.len()
        invariant
            i <= entries.len(),
            fields.len() == i,
            decode_entries(fields@) == Some(entries_map(entries@.take(i as int))),
        decreases entries.len() - i,
    {
        let written = write_bindings(&entries[i].1);
        proof {
            law_bindings_round_trip(written, bindings_view(entries@[i as int].1@));
            assert(entries@.take(i + 1).drop_last() == entries@.take(i as int));
            assert(entries@.take(i + 1).last() == entries@[i as int]);
        }
        let ghost before = fields@;
        fields.push((entries[i].0.clone(), written));
        assert(fields@.drop_last() == before);
        i = i + 1;
    }
    assert(entries@.take(i as int) == entries@);
    let json = Json::Object(fields);
    assert(json->Object_0 == fields);
    json
}

} // verus!
