//! From a JSON document to the catalog of bound services.
//!
//! The document is an object. Each of its fields is named after a service
//! type and holds an array of bindings. A binding is an object with the
//! optional texts `name`, `instance_name`, `binding_name` and `label` and
//! the required object `credentials`. A text that the document leaves out is
//! empty, a port that it leaves out is zero, and fields of other names are
//! passed over.

use vstd::prelude::*;
use crate::catalog::ServiceCatalog;
use crate::json::{field, find_field, Json};
use crate::model::{CFError, Credentials, CredentialsView, Service, ServiceView};

verus! {

/// The field of a binding that holds its name.
pub const NAME: &'static str = "name";
/// The field of a binding that holds its instance name.
pub const INSTANCE_NAME: &'static str = "instance_name";
/// The field of a binding that holds the name it is bound as.
pub const BINDING_NAME: &'static str = "binding_name";
/// The field of a binding that holds its label.
pub const LABEL: &'static str = "label";
/// The field of a binding that holds its credentials.
pub const CREDENTIALS: &'static str = "credentials";
/// The field of the credentials that holds `uri`.
pub const URI: &'static str = "uri";
/// The field of the credentials that holds `jdbc_url`.
pub const JDBC_URL: &'static str = "jdbcUrl";
/// The field of the credentials that holds `api_uri`.
pub const API_URI: &'static str = "http_api_uri";
/// The field of the credentials that holds `license_key`.
pub const LICENSE_KEY: &'static str = "licenseKey";
/// The field of the credentials that holds `client_secret`.
pub const CLIENT_SECRET: &'static str = "client_secret";
/// The field of the credentials that holds `client_id`.
pub const CLIENT_ID: &'static str = "client_id";
/// The field of the credentials that holds `access_token_uri`.
pub const ACCESS_TOKEN_URI: &'static str = "access_token_uri";
/// The field of the credentials that holds `hostname`.
pub const HOSTNAME: &'static str = "hostname";
/// The field of the credentials that holds `username`.
pub const USERNAME: &'static str = "username";
/// The field of the credentials that holds `password`.
pub const PASSWORD: &'static str = "password";
/// The field of the credentials that holds `port`.
pub const PORT: &'static str = "port";

/// The text that the field called `key` gives: empty where the object has no
/// such field, the field's text where it holds one, and `None` where it holds
/// anything else.
pub open spec fn text_field(fields: Seq<(String, Json)>, key: Seq<char>) -> Option<Seq<char>> {
    match field(fields, key) {
        None => Some(Seq::empty()),
        Some(Json::String(text)) => Some(text@),
        Some(_) => None,
    }
}

/// The port that the field called `key` gives: zero where the object has no
/// such field, the field's number where it is an integer that an `i16` holds,
/// and `None` where the field holds anything else.
pub open spec fn port_field(fields: Seq<(String, Json)>, key: Seq<char>) -> Option<i16> {
    match field(fields, key) {
        None => Some(0i16),
        Some(Json::Number(Some(number))) => if i16::MIN <= number <= i16::MAX {
            Some(number as i16)
        } else {
            None
        },
        Some(_) => None,
    }
}

/// The credentials that a document holds, `None` where it is no object or
/// one of the known fields holds a value of the wrong kind.
pub open spec fn decode_credentials(json: Json) -> Option<CredentialsView> {
    match json {
        Json::Object(fields) => {
            let f = fields@;
            if {
                &&& text_field(f, URI@) is Some
                &&& text_field(f, JDBC_URL@) is Some
                &&& text_field(f, API_URI@) is Some
                &&& text_field(f, LICENSE_KEY@) is Some
                &&& text_field(f, CLIENT_SECRET@) is Some
                &&& text_field(f, CLIENT_ID@) is Some
                &&& text_field(f, ACCESS_TOKEN_URI@) is Some
                &&& text_field(f, HOSTNAME@) is Some
                &&& text_field(f, USERNAME@) is Some
                &&& text_field(f, PASSWORD@) is Some
                &&& port_field(f, PORT@) is Some
                &&& text_field(f, NAME@) is Some
            } {
                Some(
                    CredentialsView {
                        uri: text_field(f, URI@).unwrap(),
                        jdbc_url: text_field(f, JDBC_URL@).unwrap(),
                        api_uri: text_field(f, API_URI@).unwrap(),
                        license_key: text_field(f, LICENSE_KEY@).unwrap(),
                        client_secret: text_field(f, CLIENT_SECRET@).unwrap(),
                        client_id: text_field(f, CLIENT_ID@).unwrap(),
                        access_token_uri: text_field(f, ACCESS_TOKEN_URI@).unwrap(),
                        hostname: text_field(f, HOSTNAME@).unwrap(),
                        username: text_field(f, USERNAME@).unwrap(),
                        password: text_field(f, PASSWORD@).unwrap(),
                        port: port_field(f, PORT@).unwrap(),
                        name: text_field(f, NAME@).unwrap(),
                    },
                )
            } else {
                None
            }
        },
        _ => None,
    }
}

/// The binding that a document holds, `None` where it is no object, has no
/// credentials, or one of the known fields holds a value of the wrong kind.
pub open spec fn decode_service(json: Json) -> Option<ServiceView> {
    match json {
        Json::Object(fields) => {
            let f = fields@;
            match field(f, CREDENTIALS@) {
                Some(inner) => if {
                    &&& text_field(f, NAME@) is Some
                    &&& text_field(f, INSTANCE_NAME@) is Some
                    &&& text_field(f, BINDING_NAME@) is Some
                    &&& text_field(f, LABEL@) is Some
                    &&& decode_credentials(inner) is Some
                } {
                    Some(
                        ServiceView {
                            name: text_field(f, NAME@).unwrap(),
                            instance_name: text_field(f, INSTANCE_NAME@).unwrap(),
                            binding_name: text_field(f, BINDING_NAME@).unwrap(),
                            credentials: decode_credentials(inner).unwrap(),
                            label: text_field(f, LABEL@).unwrap(),
                        },
                    )
                } else {
                    None
                },
                None => None,
            }
        },
        _ => None,
    }
}

/// The bindings that the items of an array hold, in the array's order, `None`
/// where one of the items is no binding.
pub open spec fn decode_bindings(items: Seq<Json>) -> Option<Seq<ServiceView>> {
    if forall|i: int| 0 <= i < items.len() ==> (#[trigger] decode_service(items[i])) is Some {
        Some(Seq::new(items.len(), |i: int| decode_service(items[i]).unwrap()))
    } else {
        None
    }
}

/// The map that the fields of the outermost object give, `None` where one of
/// them holds anything but an array of bindings. A later field replaces an
/// earlier one of the same name.
pub open spec fn decode_entries(fields: Seq<(String, Json)>) -> Option<Map<Seq<char>, Seq<ServiceView>>>
    decreases fields.len(),
{
    if fields.len() == 0 {
        Some(Map::empty())
    } else {
        match (decode_entries(fields.drop_last()), fields.last().1) {
            (Some(earlier), Json::Array(items)) => match decode_bindings(items@) {
                Some(bindings) => Some(earlier.insert(fields.last().0@, bindings)),
                None => None,
            },
            _ => None,
        }
    }
}

/// The catalog that a document holds, `None` where the document does not have
/// the shape of one.
pub open spec fn decode_catalog(json: Json) -> Option<Map<Seq<char>, Seq<ServiceView>>> {
    match json {
        Json::Object(fields) => decode_entries(fields@),
        _ => None,
    }
}

/// Where the first fields of an object already fail to decode, so does the
/// whole object.
pub proof fn lemma_prefix_failure(fields: Seq<(String, Json)>, n: int)
    requires
        0 <= n <= fields.len(),
        decode_entries(fields.take(n)) is None,
    ensures
        decode_entries(fields) is None,
    decreases fields.len(),
{
    if n == fields.len() {
        assert(fields.take(n) == fields);
    } else {
        assert(fields.drop_last().take(n) == fields.take(n));
        lemma_prefix_failure(fields.drop_last(), n);
    }
}

fn read_text(fields: &Vec<(String, Json)>, key: &str) -> (text: Option<String>)
    ensures
        match text {
            Some(t) => text_field(fields@, key@) == Some(t@),
            None => text_field(fields@, key@) is None,
        },
{
    let name: String = key.to_owned();
    match find_field(fields, &name) {
        None => Some(String::new()),
        Some(Json::String(text)) => Some(text.clone()),
        Some(_) => None,
    }
}

fn read_port(fields: &Vec<(String, Json)>, key: &str) -> (port: Option<i16>)
    ensures
        port == port_field(fields@, key@),
{
    let name: String = key.to_owned();
    match find_field(fields, &name) {
        None => Some(0i16),
        Some(Json::Number(Some(number))) => {
            if -32768 <= *number && *number <= 32767 {
                Some(*number as i16)
            } else {
                None
            }
        },
        Some(_) => None,
    }
}

/// Reads the credentials that a document holds.
///
/// Succeeds exactly where [`decode_credentials`] gives credentials, and
/// returns those.
pub fn read_credentials(json: &Json) -> (credentials: Option<Credentials>)
    ensures
        match credentials {
            Some(c) => decode_credentials(*json) == Some(c@),
            None => decode_credentials(*json) is None,
        },
{
    match json {
        Json::Object(fields) => {
            let uri = read_text(fields, URI)?;
            let jdbc_url = read_text(fields, JDBC_URL)?;
            let api_uri = read_text(fields, API_URI)?;
            let license_key = read_text(fields, LICENSE_KEY)?;
            let client_secret = read_text(fields, CLIENT_SECRET)?;
            let client_id = read_text(fields, CLIENT_ID)?;
            let access_token_uri = read_text(fields, ACCESS_TOKEN_URI)?;
            let hostname = read_text(fields, HOSTNAME)?;
            let username = read_text(fields, USERNAME)?;
            let password = read_text(fields, PASSWORD)?;
            let port = read_port(fields, PORT)?;
            let name = read_text(fields, NAME)?;
            Some(
                Credentials {
                    uri,
                    jdbc_url,
                    api_uri,
                    license_key,
                    client_secret,
                    client_id,
                    access_token_uri,
                    hostname,
                    username,
                    password,
                    port,
                    name,
                },
            )
        },
        _ => None,
    }
}

/// Reads the binding that a document holds.
///
/// Succeeds exactly where [`decode_service`] gives a binding, and returns
/// that one.
pub fn read_service(json: &Json) -> (service: Option<Service>)
    ensures
        match service {
            Some(s) => decode_service(*json) == Some(s@),
            None => decode_service(*json) is None,
        },
{
    match json {
        Json::Object(fields) => {
            let key: String = CREDENTIALS.to_owned();
            let inner = find_field(fields, &key)?;
            let credentials = read_credentials(inner)?;
            let name = read_text(fields, NAME)?;
            let instance_name = read_text(fields, INSTANCE_NAME)?;
            let binding_name = read_text(fields, BINDING_NAME)?;
            let label = read_text(fields, LABEL)?;
            Some(Service { name, instance_name, binding_name, credentials, label })
        },
        _ => None,
    }
}

/// Reads the bindings that the items of an array hold, in the array's order.
///
/// Succeeds exactly where [`decode_bindings`] gives bindings, and returns
/// those.
pub fn read_bindings(items: &Vec<Json>) -> (bindings: Option<Vec<Service>>)
    ensures
        match bindings {
            Some(b) => decode_bindings(items@) == Some(crate::model::bindings_view(b@)),
            None => decode_bindings(items@) is None,
        },
{
    let mut bindings: Vec<Service> = Vec::new();
    let mut i: usize = 0;
    while i < items.len()
        invariant
            i <= items.len(),
            bindings.len() == i,
            forall|j: int| 0 <= j < i ==> (#[trigger] decode_service(items@[j])) == Some(bindings@[j]@),
        decreases items.len() - i,
    {
        match read_service(&items[i]) {
            Some(service) => bindings.push(service),
            None => {
                return None;
            },
        }
        i = i + 1;
    }
    assert(decode_bindings(items@).unwrap() =~= crate::model::bindings_view(bindings@));
    Some(bindings)
}

/// Decodes a JSON document into the catalog of bound services.
///
/// Succeeds exactly where [`decode_catalog`] gives a catalog, and returns that
/// one. On every other document the error is [`CFError::MalformedJSON`].
pub fn decode_services(json: &Json) -> (decoded: Result<ServiceCatalog, CFError>)
    ensures
        match decode_catalog(*json) {
            Some(catalog) => decoded is Ok && decoded.unwrap()@ == catalog,
            None => decoded == Err::<ServiceCatalog, CFError>(CFError::MalformedJSON),
        },
{
    match json {
        Json::Object(fields) => {
            let mut catalog = ServiceCatalog::new();
            let mut i: usize = 0;
            while i < fields.len()
                invariant
                    i <= fields.len(),
                    *json == Json::Object(*fields),
                    decode_entries(fields@.take(i as int)) == Some(catalog@),
                decreases fields.len() - i,
            {
                assert(fields@.take(i + 1).drop_last() == fields@.take(i as int));
                assert(fields@.take(i + 1).last() == fields@[i as int]);
                let read = match &fields[i].1 {
                    Json::Array(items) => read_bindings(items),
                    _ => None,
                };
                match read {
                    Some(bindings) => catalog.insert(fields[i].0.clone(), bindings),
                    None => {
                        proof {
                            lemma_prefix_failure(fields@, i + 1);
                        }
                        return Err(CFError::MalformedJSON);
                    },
                }
                i = i + 1;
            }
            assert(fields@.take(i as int) == fields@);
            Ok(catalog)
        },
        _ => Err(CFError::MalformedJSON),
    }
}

} // verus!
