use cf_services::decode::{decode_services, read_bindings, read_credentials, read_service};
use cf_services::json::{find_field, parse_json};
use cf_services::{get_services_from_env, CFError, Json};

fn text(value: &str) -> Json {
    Json::String(value.to_string())
}

fn object(fields: Vec<(&str, Json)>) -> Json {
    Json::Object(fields.into_iter().map(|(name, value)| (name.to_string(), value)).collect())
}

#[test]
fn parser_reads_each_kind_of_value() {
    let json = parse_json(r#"{"a":null,"b":true,"c":-12,"d":1.5,"e":"x","f":[1,"y"],"g":{}}"#).unwrap();
    let fields = match json {
        Json::Object(fields) => fields,
        other => panic!("no object: {:?}", other),
    };
    assert_eq!(7, fields.len());
    assert!(matches!(find_field(&fields, &"a".to_string()), Some(Json::Null)));
    assert!(matches!(find_field(&fields, &"b".to_string()), Some(Json::Bool(true))));
    assert!(matches!(find_field(&fields, &"c".to_string()), Some(Json::Number(Some(-12)))));
    assert!(matches!(find_field(&fields, &"d".to_string()), Some(Json::Number(None))));
    assert!(matches!(find_field(&fields, &"e".to_string()), Some(Json::String(s)) if s == "x"));
    match find_field(&fields, &"f".to_string()) {
        Some(Json::Array(items)) => {
            assert_eq!(2, items.len());
            assert!(matches!(&items[0], Json::Number(Some(1))));
            assert!(matches!(&items[1], Json::String(s) if s == "y"));
        }
        other => panic!("no array: {:?}", other),
    }
    assert!(matches!(find_field(&fields, &"g".to_string()), Some(Json::Object(inner)) if inner.is_empty()));
    assert!(find_field(&fields, &"h".to_string()).is_none());
}

#[test]
fn parser_rejects_what_is_no_document() {
    assert!(parse_json("").is_none());
    assert!(parse_json("{").is_none());
    assert!(parse_json("{\"a\": [}").is_none());
    assert!(parse_json("{} {}").is_none());
    assert!(parse_json("{'a': 1}").is_none());
}

#[test]
fn parser_keeps_large_integers_apart() {
    assert!(matches!(parse_json("9223372036854775807"), Some(Json::Number(Some(i64::MAX)))));
    assert!(matches!(parse_json("9223372036854775808"), Some(Json::Number(None))));
    assert!(matches!(parse_json("-9223372036854775808"), Some(Json::Number(Some(i64::MIN)))));
}

#[test]
fn later_field_of_a_name_counts() {
    let fields = vec![
        ("a".to_string(), Json::Null),
        ("b".to_string(), Json::Bool(false)),
        ("a".to_string(), Json::Bool(true)),
    ];
    assert!(matches!(find_field(&fields, &"a".to_string()), Some(Json::Bool(true))));
    assert!(matches!(find_field(&fields, &"b".to_string()), Some(Json::Bool(false))));
    assert!(find_field(&fields, &"c".to_string()).is_none());
    assert!(find_field(&Vec::new(), &"a".to_string()).is_none());
}

#[test]
fn credentials_take_the_renamed_fields() {
    let json = object(vec![
        ("uri", text("u")),
        ("jdbcUrl", text("j")),
        ("http_api_uri", text("h")),
        ("licenseKey", text("l")),
        ("client_secret", text("cs")),
        ("client_id", text("ci")),
        ("access_token_uri", text("at")),
        ("hostname", text("host")),
        ("username", text("user")),
        ("password", text("pass")),
        ("port", Json::Number(Some(443))),
        ("name", text("n")),
    ]);
    let c = read_credentials(&json).unwrap();
    assert_eq!("u", c.uri);
    assert_eq!("j", c.jdbc_url);
    assert_eq!("h", c.api_uri);
    assert_eq!("l", c.license_key);
    assert_eq!("cs", c.client_secret);
    assert_eq!("ci", c.client_id);
    assert_eq!("at", c.access_token_uri);
    assert_eq!("host", c.hostname);
    assert_eq!("user", c.username);
    assert_eq!("pass", c.password);
    assert_eq!(443, c.port);
    assert_eq!("n", c.name);
}

#[test]
fn credentials_ignore_the_internal_names_on_the_wire() {
    let json = object(vec![
        ("jdbc_url", text("j")),
        ("api_uri", text("h")),
        ("license_key", Json::Number(Some(1))),
    ]);
    let c = read_credentials(&json).unwrap();
    assert_eq!("", c.jdbc_url);
    assert_eq!("", c.api_uri);
    assert_eq!("", c.license_key);
}

#[test]
fn empty_credentials_are_all_defaults() {
    let c = read_credentials(&object(vec![])).unwrap();
    assert_eq!("", c.uri);
    assert_eq!("", c.jdbc_url);
    assert_eq!("", c.api_uri);
    assert_eq!("", c.license_key);
    assert_eq!("", c.client_secret);
    assert_eq!("", c.client_id);
    assert_eq!("", c.access_token_uri);
    assert_eq!("", c.hostname);
    assert_eq!("", c.username);
    assert_eq!("", c.password);
    assert_eq!(0, c.port);
    assert_eq!("", c.name);
}

#[test]
fn port_must_be_an_integer_in_range() {
    assert_eq!(32767, read_credentials(&object(vec![("port", Json::Number(Some(32767)))])).unwrap().port);
    assert_eq!(-32768, read_credentials(&object(vec![("port", Json::Number(Some(-32768)))])).unwrap().port);
    assert!(read_credentials(&object(vec![("port", Json::Number(Some(32768)))])).is_none());
    assert!(read_credentials(&object(vec![("port", Json::Number(Some(-32769)))])).is_none());
    assert!(read_credentials(&object(vec![("port", Json::Number(None))])).is_none());
    assert!(read_credentials(&object(vec![("port", text("8080"))])).is_none());
    assert!(read_credentials(&object(vec![("port", Json::Null)])).is_none());
}

#[test]
fn text_of_the_wrong_kind_is_rejected() {
    assert!(read_credentials(&object(vec![("uri", Json::Null)])).is_none());
    assert!(read_credentials(&object(vec![("username", Json::Number(Some(1)))])).is_none());
    assert!(read_credentials(&object(vec![("name", Json::Bool(true))])).is_none());
    assert!(read_credentials(&Json::Array(vec![])).is_none());
    assert!(read_credentials(&Json::Null).is_none());
    assert!(read_credentials(&text("uri")).is_none());
}

#[test]
fn binding_needs_credentials() {
    assert!(read_service(&object(vec![("name", text("n"))])).is_none());
    assert!(read_service(&object(vec![("credentials", Json::Null)])).is_none());
    assert!(read_service(&object(vec![("credentials", object(vec![])), ("label", Json::Null)])).is_none());
    assert!(read_service(&Json::Array(vec![])).is_none());
    let s = read_service(&object(vec![("credentials", object(vec![]))])).unwrap();
    assert_eq!("", s.name);
    assert_eq!("", s.instance_name);
    assert_eq!("", s.binding_name);
    assert_eq!("", s.label);
    assert_eq!("", s.credentials.uri);
    assert_eq!(0, s.credentials.port);
}

#[test]
fn binding_takes_its_four_texts_and_passes_over_the_rest() {
    let json = object(vec![
        ("name", text("n")),
        ("instance_name", text("i")),
        ("binding_name", text("b")),
        ("label", text("l")),
        ("tags", Json::Array(vec![text("t")])),
        ("plan", Json::Null),
        ("credentials", object(vec![("uri", text("u")), ("extra", Json::Bool(true))])),
    ]);
    let s = read_service(&json).unwrap();
    assert_eq!("n", s.name);
    assert_eq!("i", s.instance_name);
    assert_eq!("b", s.binding_name);
    assert_eq!("l", s.label);
    assert_eq!("u", s.credentials.uri);
}

#[test]
fn bindings_keep_their_order_and_fail_as_a_whole() {
    let good = |name: &str| object(vec![("name", text(name)), ("credentials", object(vec![]))]);
    let all = read_bindings(&vec![good("a"), good("b"), good("c")]).unwrap();
    assert_eq!(3, all.len());
    assert_eq!("a", all[0].name);
    assert_eq!("b", all[1].name);
    assert_eq!("c", all[2].name);
    assert!(read_bindings(&vec![]).unwrap().is_empty());
    assert!(read_bindings(&vec![good("a"), Json::Null]).is_none());
    assert!(read_bindings(&vec![object(vec![]), good("b")]).is_none());
}

#[test]
fn catalog_must_be_an_object_of_arrays() {
    assert_eq!(CFError::MalformedJSON, decode_services(&Json::Null).err().unwrap());
    assert_eq!(CFError::MalformedJSON, decode_services(&Json::Array(vec![])).err().unwrap());
    assert_eq!(
        CFError::MalformedJSON,
        decode_services(&object(vec![("serviceA", object(vec![]))])).err().unwrap()
    );
    assert_eq!(
        CFError::MalformedJSON,
        decode_services(&object(vec![("serviceA", Json::Array(vec![])), ("serviceB", Json::Null)]))
            .err()
            .unwrap()
    );
    let empty = decode_services(&object(vec![])).unwrap();
    assert!(!empty.contains_key("serviceA"));
    let one = decode_services(&object(vec![("serviceA", Json::Array(vec![]))])).unwrap();
    assert_eq!(0, one.get("serviceA").unwrap().len());
}

#[test]
fn catalog_with_several_service_types() {
    let json = r#"{
        "p-config-server": [
            {"name": "config-a", "label": "p-config-server", "tags": ["configuration"],
             "credentials": {"uri": "https://config-a", "client_id": "id-a",
                             "access_token_uri": "https://uaa/oauth/token"}},
            {"name": "config-b", "instance_name": "config-b", "binding_name": "bound",
             "credentials": {}}
        ],
        "mysql": [
            {"name": "db", "credentials": {"jdbcUrl": "jdbc:mysql://db", "hostname": "db", "port": 3306,
                                           "username": "u", "password": "p", "name": "schema"}}
        ],
        "user-provided": []
    }"#;
    let services = get_services_from_env(Some(json)).unwrap();
    let config = services.get("p-config-server").unwrap();
    assert_eq!(2, config.len());
    assert_eq!("config-a", config[0].name);
    assert_eq!("p-config-server", config[0].label);
    assert_eq!("https://config-a", config[0].credentials.uri);
    assert_eq!("id-a", config[0].credentials.client_id);
    assert_eq!("https://uaa/oauth/token", config[0].credentials.access_token_uri);
    assert_eq!("config-b", config[1].instance_name);
    assert_eq!("bound", config[1].binding_name);
    let mysql = services.get("mysql").unwrap();
    assert_eq!("jdbc:mysql://db", mysql[0].credentials.jdbc_url);
    assert_eq!("db", mysql[0].credentials.hostname);
    assert_eq!(3306, mysql[0].credentials.port);
    assert_eq!("u", mysql[0].credentials.username);
    assert_eq!("p", mysql[0].credentials.password);
    assert_eq!("schema", mysql[0].credentials.name);
    assert!(services.get("user-provided").unwrap().is_empty());
    assert!(services.get("redis").is_none());
}

#[test]
fn structurally_wrong_payloads_are_malformed() {
    let cases = [
        r#"[]"#,
        r#"null"#,
        r#"{"serviceA": {}}"#,
        r#"{"serviceA": [{"name": "service_a"}]}"#,
        r#"{"serviceA": [{"name": 1, "credentials": {}}]}"#,
        r#"{"serviceA": [{"credentials": {"port": 70000}}]}"#,
        r#"{"serviceA": [{"credentials": {"port": 80.5}}]}"#,
        r#"{"serviceA": [{"credentials": {"port": "80"}}]}"#,
        r#"{"serviceA": [{"credentials": {"uri": null}}]}"#,
        r#"{"serviceA": [{"credentials": []}]}"#,
        r#"{"serviceA": ["service_a"]}"#,
    ];
    for case in cases {
        assert_eq!(CFError::MalformedJSON, get_services_from_env(Some(case)).err().unwrap(), "{}", case);
    }
}
