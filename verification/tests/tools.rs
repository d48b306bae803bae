//! The declared tools.

use nexo_plugin_google::client::TokenFile;
use nexo_plugin_google::error::GoogleError;
use nexo_plugin_google::http::request_method;
use nexo_plugin_google::json::{Json, Members};
use nexo_plugin_google::plugin::{AccountFiles, GoogleAccount, GooglePlugin};
use nexo_plugin_google::tools::tool_defs;

#[test]
fn defines_four_tools_in_order() {
    let defs = tool_defs();
    assert_eq!(defs.len(), 4);
    assert_eq!(defs[0].name, "google_auth_start");
    assert_eq!(defs[1].name, "google_auth_status");
    assert_eq!(defs[2].name, "google_call");
    assert_eq!(defs[3].name, "google_auth_revoke");
}

#[test]
fn google_call_input_schema_requires_method_and_url() {
    let defs = tool_defs();
    let call = defs.iter().find(|d| d.name == "google_call").unwrap();
    let required = match call.input_schema.get("required") {
        Some(Json::Array(v)) => v,
        _ => panic!("an array is due"),
    };
    let names: Vec<&str> = required.iter().filter_map(|v| v.as_str()).collect();
    assert!(names.contains(&"method"));
    assert!(names.contains(&"url"));
}

#[test]
fn schemas_and_descriptions_are_complete() {
    let defs = tool_defs();
    let call = &defs[2].input_schema;
    assert_eq!(call.get("type"), Some(&Json::text("object")));
    let properties = call.get("properties").unwrap();
    let method = properties.get("method").unwrap();
    assert_eq!(method.get("description"), Some(&Json::text("HTTP method.")));
    let names: Vec<Json> =
        ["GET", "POST", "PUT", "PATCH", "DELETE"].iter().map(|m| Json::text(m)).collect();
    assert_eq!(method.get("enum"), Some(&Json::array(names)));
    assert_eq!(properties.get("url").unwrap().get("type"), Some(&Json::text("string")));
    assert_eq!(properties.get("body").unwrap().get("type"), Some(&Json::text("object")));
    for i in [0, 1, 3] {
        assert_eq!(defs[i].input_schema.get("properties"), Some(&Json::Object(vec![])));
        assert_eq!(defs[i].input_schema.get("required"), None);
    }
    assert!(defs[0].description.starts_with("Begin the Google OAuth consent flow. Returns a URL the user must open in"));
    assert!(defs[1].description.ends_with("call `google_auth_start` to kick off the consent flow."));
    assert!(defs[2].description.contains("JSON response.\n\nExamples:\n- Gmail inbox: `{method: 'GET'"));
    assert!(defs[3].description.contains("myaccount.google.com → Security → Third-party apps"));
}

#[test]
fn declared_tools_are_known_and_others_are_not() {
    let mut p = GooglePlugin::default();
    p.on_configure(&[AccountFiles {
        account: GoogleAccount {
            id: "a".into(),
            agent_id: "ana".into(),
            client_id_path: "/c".into(),
            client_secret_path: "/s".into(),
            token_path: "/t".into(),
            scopes: vec![],
            redirect_port: 0,
        },
        client_id: Some("id".into()),
        client_secret: Some("secret".into()),
        id_mtime: None,
        secret_mtime: None,
        tokens: TokenFile::Missing,
    }])
    .unwrap();
    let none = Members::new().into_json();
    for def in tool_defs() {
        let outcome = p.invoke_outbound_tool(&def.name, &none, "ana");
        assert!(!matches!(outcome, Err(GoogleError::UnknownTool(_))), "{}", def.name);
    }
    let outcome = p.invoke_outbound_tool("google_auth", &none, "ana");
    assert!(matches!(outcome, Err(GoogleError::UnknownTool(t)) if t == "google_auth"));
}

#[test]
fn listed_methods_are_offered() {
    let defs = tool_defs();
    let listed = defs[2].input_schema.get("properties").unwrap().get("method").unwrap().get("enum");
    match listed {
        Some(Json::Array(names)) => {
            assert_eq!(names.len(), 5);
            for name in names {
                assert!(request_method(name.as_str().unwrap()).is_ok());
            }
        }
        _ => panic!("an array is due"),
    }
}
