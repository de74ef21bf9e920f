//! The records of a service binding and the errors of this library.

use vstd::prelude::*;
use vstd::string::StringExecFns;

verus! {

/// The environment variable key that contains all the bounded services to the application.
pub const VCAP_SERVICES: &'static str = "VCAP_SERVICES";

/// The credentials information for authenticating with the service.
#[derive(Debug)]
pub struct Credentials {
    /// The URI of the service.
    pub uri: String,
    /// The JDBC URI of the service.
    pub jdbc_url: String,
    /// The API URI of the service.
    pub api_uri: String,
    /// The license key for the service.
    pub license_key: String,
    /// The Client Secret for generating a token via OAuth.
    pub client_secret: String,
    /// The Client ID for generating a token via OAuth.
    pub client_id: String,
    /// The Access Token URI for generating a token via OAuth.
    pub access_token_uri: String,
    /// The hostname of the service.
    pub hostname: String,
    /// The username to authenticate with the service.
    pub username: String,
    /// The password of the username.
    pub password: String,
    /// The Port of the service.
    pub port: i16,
    /// The name of the credentials.
    pub name: String,
}

/// What a [`Credentials`] value holds, each text as a sequence of characters.
pub ghost struct CredentialsView {
    pub uri: Seq<char>,
    pub jdbc_url: Seq<char>,
    pub api_uri: Seq<char>,
    pub license_key: Seq<char>,
    pub client_secret: Seq<char>,
    pub client_id: Seq<char>,
    pub access_token_uri: Seq<char>,
    pub hostname: Seq<char>,
    pub username: Seq<char>,
    pub password: Seq<char>,
    pub port: i16,
    pub name: Seq<char>,
}

impl View for Credentials {
    type V = CredentialsView;

    open spec fn view(&self) -> CredentialsView {
        CredentialsView {
            uri: self.uri@,
            jdbc_url: self.jdbc_url@,
            api_uri: self.api_uri@,
            license_key: self.license_key@,
            client_secret: self.client_secret@,
            client_id: self.client_id@,
            access_token_uri: self.access_token_uri@,
            hostname: self.hostname@,
            username: self.username@,
            password: self.password@,
            port: self.port,
            name: self.name@,
        }
    }
}

impl Clone for Credentials {
    fn clone(&self) -> (copy: Self)
        ensures
            copy@ == self@,
    {
        Credentials {
            uri: self.uri.clone(),
            jdbc_url: self.jdbc_url.clone(),
            api_uri: self.api_uri.clone(),
            license_key: self.license_key.clone(),
            client_secret: self.client_secret.clone(),
            client_id: self.client_id.clone(),
            access_token_uri: self.access_token_uri.clone(),
            hostname: self.hostname.clone(),
            username: self.username.clone(),
            password: self.password.clone(),
            port: self.port,
            name: self.name.clone(),
        }
    }
}

/// The high level service information for a service bounded to an application. Multiple services of
/// the same type can be bounded to an application (e.g. multiple Config Servers).
#[derive(Debug)]
pub struct Service {
    /// The name of the service.
    pub name: String,
    /// The instance name of the service.
    pub instance_name: String,
    /// The name the service is bounded as.
    pub binding_name: String,
    /// The credentials of the service.
    pub credentials: Credentials,
    /// The label associated with the service.
    pub label: String,
}

/// What a [`Service`] value holds, each text as a sequence of characters.
pub ghost struct ServiceView {
    pub name: Seq<char>,
    pub instance_name: Seq<char>,
    pub binding_name: Seq<char>,
    pub credentials: CredentialsView,
    pub label: Seq<char>,
}

impl View for Service {
    type V = ServiceView;

    open spec fn view(&self) -> ServiceView {
        ServiceView {
            name: self.name@,
            instance_name: self.instance_name@,
            binding_name: self.binding_name@,
            credentials: self.credentials@,
            label: self.label@,
        }
    }
}

/// The bindings of a list, each by its view, in the list's order.
pub open spec fn bindings_view(bindings: Seq<Service>) -> Seq<ServiceView> {
    Seq::new(bindings.len(), |i: int| bindings[i]@)
}

/// The credentials of each binding of a list, in the list's order.
pub open spec fn credentials_of(bindings: Seq<ServiceView>) -> Seq<CredentialsView> {
    Seq::new(bindings.len(), |i: int| bindings[i].credentials)
}

/// The credentials of a list, each by its view, in the list's order.
pub open spec fn credentials_view(credentials: Seq<Credentials>) -> Seq<CredentialsView> {
    Seq::new(credentials.len(), |i: int| credentials[i]@)
}

/// Enumeration of the different errors that can occur.
#[derive(PartialEq, Debug)]
pub enum CFError {
    /// Error when the environment variable is not set.
    EnvNotSet,
    /// Error then the environment variable JSON is malformed.
    MalformedJSON,
    /// Error when a service is not present.
    ServiceNotPresent(String),
}

/// The text that std's `Debug` formatting of `str` writes for a text: the
/// text between double quotes, with the characters that need it escaped.
pub uninterp spec fn quoted(text: Seq<char>) -> Seq<char>;

/// Formats a text with std's `Debug` formatting of `str`, `{:?}`. What that
/// writes depends on the text alone, and [`quoted`] is its name.
#[verifier::external_body]
fn quote(text: &str) -> (written: String)
    ensures
        written@ == quoted(text@),
{
    format!("{:?}", text)
}

impl CFError {
    /// The description of an error, as [`CFError::message`] returns it.
    pub open spec fn message_text(&self) -> Seq<char> {
        match self {
            CFError::EnvNotSet => "environment variable "@ + quoted(VCAP_SERVICES@) + " is not set"@,
            CFError::MalformedJSON => "environment variable "@ + quoted(VCAP_SERVICES@)
                + " is malformed"@,
            CFError::ServiceNotPresent(name) => "service "@ + quoted(name@)
                + " is not bounded to the application"@,
        }
    }

    /// Describes the error in a sentence that quotes the variable's or the
    /// service's name.
    pub fn message(&self) -> (text: String)
        ensures
            text@ == self.message_text(),
    {
        match self {
            CFError::EnvNotSet => {
                let mut text: String = "environment variable ".to_owned();
                text.append(quote(VCAP_SERVICES).as_str());
                text.append(" is not set");
                text
            },
            CFError::MalformedJSON => {
                let mut text: String = "environment variable ".to_owned();
                text.append(quote(VCAP_SERVICES).as_str());
                text.append(" is malformed");
                text
            },
            CFError::ServiceNotPresent(name) => {
                let mut text: String = "service ".to_owned();
                text.append(quote(name.as_str()).as_str());
                text.append(" is not bounded to the application");
                text
            },
        }
    }
}

} // verus!
