use user_service::models::CreateUser;
use user_service::response::{AppError, AppResponse, Envelope, Failure, classify};
use user_service::service::{serve_create, serve_delete, serve_get, serve_list, serve_update};
use user_service::store::ModelStore;

fn input(name: &str, email: &str) -> CreateUser {
    CreateUser { name: name.to_string(), email: email.to_string() }
}

fn data_of<T>(body: &Envelope<T>) -> &T {
    match body {
        Envelope::Data(m) => {
            assert!(m.success);
            &m.data
        }
        Envelope::Error(e) => panic!("expected data, got err {:?}", e.err),
    }
}

fn err_of<T>(body: &Envelope<T>) -> &'static str {
    match body {
        Envelope::Data(_) => panic!("expected an error body"),
        Envelope::Error(e) => {
            assert!(!e.success);
            e.err
        }
    }
}

#[test]
fn create_then_get_round_trip() {
    let mut store = ModelStore::new();
    let r = serve_create(&mut store, &input("Ana", "ana@x.com"));
    assert_eq!(r.status, 201);
    let created = data_of(&r.body);
    assert_eq!(created.id, 1);
    assert_eq!(created.name, "Ana");
    assert_eq!(created.email, "ana@x.com");

    let g = serve_get(&store, 1);
    assert_eq!(g.status, 200);
    let fetched = data_of(&g.body);
    assert_eq!(fetched.name, "Ana");
    assert_eq!(fetched.email, "ana@x.com");
}

#[test]
fn get_missing_id_is_400_not_found() {
    let mut store = ModelStore::new();
    serve_create(&mut store, &input("Ana", "ana@x.com"));
    let r = serve_get(&store, 999);
    assert_eq!(r.status, 400);
    assert_ne!(r.status, 404);
    assert_ne!(r.status, 500);
    assert_eq!(err_of(&r.body), "user not found");
}

#[test]
fn duplicate_email_is_refused_and_nothing_is_created() {
    let mut store = ModelStore::new();
    serve_create(&mut store, &input("Ana", "ana@x.com"));
    let before = serve_list(&store);
    let n_before = data_of(&before.body).len();

    let r = serve_create(&mut store, &input("Impostor", "ana@x.com"));
    assert_eq!(r.status, 400);
    assert_eq!(err_of(&r.body), "email already registered");

    let after = serve_list(&store);
    assert_eq!(data_of(&after.body).len(), n_before);
}

#[test]
fn delete_twice_is_success_then_not_found() {
    let mut store = ModelStore::new();
    serve_create(&mut store, &input("Ana", "ana@x.com"));

    let first = serve_delete(&mut store, 1);
    assert_eq!(first.status, 200);
    assert!(matches!(first.body, Envelope::Data(_)));

    let second = serve_delete(&mut store, 1);
    assert_eq!(second.status, 400);
    assert_eq!(err_of(&second.body), "user not found");
}

#[test]
fn update_missing_id_is_400_not_found() {
    let mut store = ModelStore::new();
    let r = serve_update(&mut store, 999, &input("Bob", "bob@x.com"));
    assert_eq!(r.status, 400);
    assert_eq!(err_of(&r.body), "user not found");
}

#[test]
fn update_rewrites_the_record() {
    let mut store = ModelStore::new();
    serve_create(&mut store, &input("Ana", "ana@x.com"));
    let r = serve_update(&mut store, 1, &input("Ana María", "ana.maria@x.com"));
    assert_eq!(r.status, 200);
    let updated = data_of(&r.body);
    assert_eq!(updated.id, 1);
    assert_eq!(updated.name, "Ana María");
    assert_eq!(updated.email, "ana.maria@x.com");

    let g = serve_get(&store, 1);
    assert_eq!(data_of(&g.body).email, "ana.maria@x.com");
}

#[test]
fn update_may_keep_its_own_email() {
    let mut store = ModelStore::new();
    serve_create(&mut store, &input("Ana", "ana@x.com"));
    let r = serve_update(&mut store, 1, &input("Renamed", "ana@x.com"));
    assert_eq!(r.status, 200);
    assert_eq!(data_of(&r.body).name, "Renamed");
}

#[test]
fn update_to_anothers_email_is_refused() {
    let mut store = ModelStore::new();
    serve_create(&mut store, &input("Ana", "ana@x.com"));
    serve_create(&mut store, &input("Bob", "bob@x.com"));
    let r = serve_update(&mut store, 2, &input("Bob", "ana@x.com"));
    assert_eq!(r.status, 400);
    assert_eq!(err_of(&r.body), "email already registered");
    // the record kept its old email
    let g = serve_get(&store, 2);
    assert_eq!(data_of(&g.body).email, "bob@x.com");
}

#[test]
fn create_with_invalid_input_touches_nothing() {
    let mut store = ModelStore::new();
    let r = serve_create(&mut store, &input("", "ana@x.com"));
    assert_eq!(r.status, 400);
    assert_eq!(err_of(&r.body), "name and email are required");

    let r = serve_create(&mut store, &input("Ana", "not-an-email"));
    assert_eq!(r.status, 400);
    assert_eq!(err_of(&r.body), "invalid email format");

    let listing = serve_list(&store);
    assert!(data_of(&listing.body).is_empty());
}

#[test]
fn list_returns_everything_in_insertion_order() {
    let mut store = ModelStore::new();
    serve_create(&mut store, &input("Ana", "ana@x.com"));
    serve_create(&mut store, &input("Bob", "bob@x.com"));
    let r = serve_list(&store);
    assert_eq!(r.status, 200);
    let users = data_of(&r.body);
    assert_eq!(users.len(), 2);
    assert_eq!((users[0].id, users[0].name.as_str()), (1, "Ana"));
    assert_eq!((users[1].id, users[1].name.as_str()), (2, "Bob"));
}

#[test]
fn ids_are_never_reused_after_delete() {
    let mut store = ModelStore::new();
    serve_create(&mut store, &input("Ana", "ana@x.com"));
    serve_delete(&mut store, 1);
    let r = serve_create(&mut store, &input("Bob", "bob@x.com"));
    assert_eq!(data_of(&r.body).id, 2);
}

#[test]
fn classify_maps_every_failure_kind() {
    assert_eq!(classify(&Failure::NotFound), AppError::Invalid { err: "user not found" });
    assert_eq!(
        classify(&Failure::UniqueViolation("email".to_string())),
        AppError::Invalid { err: "email already registered" }
    );
    assert_eq!(
        classify(&Failure::Other("connection reset".to_string())),
        AppError::InternalError
    );
}

#[test]
fn other_failures_surface_as_500_with_generic_message() {
    let r = user_service::handlers::get_user(Err(Failure::Other("db down".to_string())));
    assert_eq!(r.status, 500);
    assert_eq!(err_of(&r.body), "internal server error");

    let r = user_service::handlers::delete_user(Err(Failure::Other("db down".to_string())));
    assert_eq!(r.status, 500);
    assert_eq!(err_of(&r.body), "internal server error");

    let r = user_service::handlers::get_users(Err(Failure::Other("db down".to_string())));
    assert_eq!(r.status, 500);
    assert_eq!(err_of(&r.body), "internal server error");
}

#[test]
fn status_codes_follow_the_error_kind() {
    assert_eq!(AppError::Invalid { err: "user not found" }.status_code(), 400);
    assert_eq!(AppError::InternalError.status_code(), 500);
    let m = AppError::InternalError.error_response();
    assert!(!m.success);
    assert_eq!(m.err, "internal server error");
}

#[test]
fn app_response_renders_each_variant() {
    let ok: Result<_, AppError> = AppResponse::Success(7u32).response();
    let ok = ok.unwrap();
    assert!(ok.success);
    assert_eq!(ok.data, 7);

    let invalid: AppResponse<u32> = AppResponse::Invalid("user not found");
    assert_eq!(invalid.response(), Err(AppError::Invalid { err: "user not found" }));

    let internal: AppResponse<u32> = AppResponse::InternalError("cause stays in the log");
    assert_eq!(internal.response(), Err(AppError::InternalError));
}
