use user_service::json::{render_unit_body, render_user_body, render_users_body};
use user_service::models::{CreateUser, User};
use user_service::response::{Envelope, ErrModel, OkModel};
use user_service::service::{serve_create, serve_delete, serve_list, serve_update};
use user_service::store::ModelStore;

fn input(name: &str, email: &str) -> CreateUser {
    CreateUser { name: name.to_string(), email: email.to_string() }
}

#[test]
fn created_user_body_is_the_documented_json() {
    let mut store = ModelStore::new();
    let r = serve_create(&mut store, &input("Ana", "ana@x.com"));
    assert_eq!(r.status, 201);
    assert_eq!(
        render_user_body(&r.body),
        "{\"success\":true,\"data\":{\"id\":1,\"name\":\"Ana\",\"email\":\"ana@x.com\"}}"
    );
}

#[test]
fn update_of_missing_id_body_is_the_documented_json() {
    let mut store = ModelStore::new();
    let r = serve_update(&mut store, 999, &input("Bob", "bob@x.com"));
    assert_eq!(r.status, 400);
    assert_eq!(render_user_body(&r.body), "{\"success\":false,\"err\":\"user not found\"}");
}

#[test]
fn empty_listing_renders_an_empty_array() {
    let store = ModelStore::new();
    let r = serve_list(&store);
    assert_eq!(render_users_body(&r.body), "{\"success\":true,\"data\":[]}");
}

#[test]
fn listing_renders_comma_separated_records() {
    let mut store = ModelStore::new();
    serve_create(&mut store, &input("Ana", "ana@x.com"));
    serve_create(&mut store, &input("Bob", "bob@x.com"));
    let r = serve_list(&store);
    assert_eq!(
        render_users_body(&r.body),
        "{\"success\":true,\"data\":[{\"id\":1,\"name\":\"Ana\",\"email\":\"ana@x.com\"},{\"id\":2,\"name\":\"Bob\",\"email\":\"bob@x.com\"}]}"
    );
}

#[test]
fn delete_success_renders_null_data() {
    let mut store = ModelStore::new();
    serve_create(&mut store, &input("Ana", "ana@x.com"));
    let r = serve_delete(&mut store, 1);
    assert_eq!(render_unit_body(&r.body), "{\"success\":true,\"data\":null}");
}

#[test]
fn string_content_is_escaped() {
    let body = Envelope::Data(OkModel {
        success: true,
        data: User {
            id: -3,
            name: "A\"B\\C\nD".to_string(),
            email: "tab\there@x.com".to_string(),
        },
    });
    assert_eq!(
        render_user_body(&body),
        "{\"success\":true,\"data\":{\"id\":-3,\"name\":\"A\\\"B\\\\C\\nD\",\"email\":\"tab\\there@x.com\"}}"
    );
}

#[test]
fn control_characters_get_unicode_escapes() {
    let body = Envelope::Data(OkModel {
        success: true,
        data: User {
            id: 0,
            name: "a\u{01}b\u{1f}".to_string(),
            email: "a@b".to_string(),
        },
    });
    assert_eq!(
        render_user_body(&body),
        "{\"success\":true,\"data\":{\"id\":0,\"name\":\"a\\u0001b\\u001f\",\"email\":\"a@b\"}}"
    );
}

#[test]
fn every_body_parses_with_success_and_exactly_one_payload_field() {
    let mut store = ModelStore::new();
    let mut bodies: Vec<String> = Vec::new();

    bodies.push(render_users_body(&serve_list(&store).body));
    bodies.push(render_user_body(&serve_create(&mut store, &input("Ana", "ana@x.com")).body));
    bodies.push(render_user_body(&serve_create(&mut store, &input("Dup", "ana@x.com")).body));
    bodies.push(render_user_body(&serve_create(&mut store, &input("", "")).body));
    bodies.push(render_user_body(&serve_update(&mut store, 999, &input("B", "b@x")).body));
    bodies.push(render_unit_body(&serve_delete(&mut store, 1).body));
    bodies.push(render_unit_body(&serve_delete(&mut store, 1).body));
    bodies.push(render_user_body(&Envelope::Error(ErrModel {
        success: false,
        err: "internal server error",
    })));

    for body in bodies {
        let v: serde_json::Value = serde_json::from_str(&body).expect("body must be valid JSON");
        let obj = v.as_object().expect("body must be a JSON object");
        let success = obj.get("success").and_then(|s| s.as_bool()).expect("boolean success");
        if success {
            assert!(obj.contains_key("data"), "success body must carry data: {}", body);
            assert!(!obj.contains_key("err"), "success body must not carry err: {}", body);
        } else {
            assert!(obj.contains_key("err"), "error body must carry err: {}", body);
            assert!(!obj.contains_key("data"), "error body must not carry data: {}", body);
        }
        assert_eq!(obj.len(), 2, "body holds exactly success and one payload: {}", body);
    }
}
