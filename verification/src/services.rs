//! The operations of the library: decode the variable's value, look up the
//! credentials of a service, and both in one call.

use vstd::prelude::*;
use crate::catalog::ServiceCatalog;
use crate::decode::{decode_catalog, decode_services};
use crate::json::{json_of_text, parse_json};
use crate::model::{credentials_of, credentials_view, CFError, Credentials, ServiceView};

verus! {

/// The catalog that a text holds: `None` where the text is not one JSON
/// document, or the document does not have the shape of a catalog.
pub open spec fn catalog_of_text(text: Seq<char>) -> Option<Map<Seq<char>, Seq<ServiceView>>> {
    match json_of_text(text) {
        Some(json) => decode_catalog(json),
        None => None,
    }
}

/// Retrieves all service information from the value of the environment
/// variable [`VCAP_SERVICES`](crate::model::VCAP_SERVICES): `None` where the
/// variable is not set or its value cannot be read as text.
///
/// Without a value the error is [`CFError::EnvNotSet`]. With a value that does
/// not hold a catalog it is [`CFError::MalformedJSON`]. Every other value
/// gives the catalog that it holds.
pub fn get_services_from_env(value: Option<&str>) -> (services: Result<ServiceCatalog, CFError>)
    ensures
        match value {
            None => services == Err::<ServiceCatalog, CFError>(CFError::EnvNotSet),
            Some(text) => match catalog_of_text(text@) {
                Some(catalog) => services is Ok && services.unwrap()@ == catalog,
                None => services == Err::<ServiceCatalog, CFError>(CFError::MalformedJSON),
            },
        },
{
    match value {
        None => Err(CFError::EnvNotSet),
        Some(text) => match parse_json(text) {
            Some(json) => decode_services(&json),
            None => Err(CFError::MalformedJSON),
        },
    }
}

/// Retrieves the credential information from the provided services that match the specified service
/// name.
///
/// Where the catalog has the name, the result holds the credentials of each of
/// its bindings, in the order of the bindings: none where the name has no
/// binding. Where the catalog does not have the name, the error is
/// [`CFError::ServiceNotPresent`] with that name.
pub fn get_service_credentials(services: ServiceCatalog, service_name: String) -> (credentials: Result<
    Vec<Credentials>,
    CFError,
>)
    ensures
        services@.contains_key(service_name@) ==> credentials is Ok && credentials_view(
            credentials.unwrap()@,
        ) == credentials_of(services@[service_name@]),
        services@.contains_key(service_name@) ==> credentials.unwrap()@.len()
            == services@[service_name@].len(),
        !services@.contains_key(service_name@) ==> credentials == Err::<Vec<Credentials>, CFError>(
            CFError::ServiceNotPresent(service_name),
        ),
{
    match services.get(service_name.as_str()) {
        Some(bindings) => {
            let mut credentials: Vec<Credentials> = Vec::new();
            let mut i: usize = 0;
            while i < bindings.len()
                invariant
                    i <= bindings.len(),
                    credentials.len() == i,
                    forall|j: int| 0 <= j < i ==> (#[trigger] credentials@[j])@ == bindings@[j].credentials@,
                decreases bindings.len() - i,
            {
                credentials.push(bindings[i].credentials.clone());
                i = i + 1;
            }
            assert(credentials_view(credentials@) =~= credentials_of(services@[service_name@]));
            Ok(credentials)
        },
        None => Err(CFError::ServiceNotPresent(service_name)),
    }
}

/// Retrieves the credential information of the specified service from the
/// value of the environment variable: [`get_services_from_env`], then
/// [`get_service_credentials`] on the catalog, with the first error of the two.
pub fn get_service_cred_from_env(service_name: String, value: Option<&str>) -> (credentials: Result<
    Vec<Credentials>,
    CFError,
>)
    ensures
        match value {
            None => credentials == Err::<Vec<Credentials>, CFError>(CFError::EnvNotSet),
            Some(text) => match catalog_of_text(text@) {
                None => credentials == Err::<Vec<Credentials>, CFError>(CFError::MalformedJSON),
                Some(catalog) => if catalog.contains_key(service_name@) {
                    credentials is Ok && credentials_view(credentials.unwrap()@) == credentials_of(
                        catalog[service_name@],
                    )
                } else {
                    credentials == Err::<Vec<Credentials>, CFError>(
                        CFError::ServiceNotPresent(service_name),
                    )
                },
            },
        },
{
    match get_services_from_env(value) {
        Ok(services) => get_service_credentials(services, service_name),
        Err(error) => Err(error),
    }
}

} // verus!
