use recipe_service::document::{encode, DocValue, Document, Entry};
use recipe_service::error::{AppError, AppErrorType};
use recipe_service::model::{Ingredient, Recipe};
use recipe_service::query::Query;

fn recipe(title: &str, tags: &[&str]) -> Recipe {
    Recipe {
        title: title.to_string(),
        ingredients: vec![Ingredient { name: "flour".to_string(), qty: "2 cups".to_string() }],
        instructions: vec!["Mix".to_string(), "Cook".to_string()],
        tags: tags.iter().map(|t| t.to_string()).collect(),
        media: vec![],
    }
}

fn untitled() -> Document {
    let mut d = encode(&recipe("x", &[]));
    d.entries.remove(0);
    d
}

fn store_failure() -> AppError {
    AppError {
        message: None,
        cause: Some("connection reset".to_string()),
        error_type: AppErrorType::DbError,
    }
}

#[test]
fn api_version_is_constant() {
    assert_eq!(Query::api_version(), "0.1");
    assert_eq!(Query::api_version(), Query::api_version());
}

#[test]
fn recipes_of_empty_store_is_empty() {
    assert_eq!(Query::recipes(vec![]).unwrap(), Vec::<Recipe>::new());
}

#[test]
fn recipes_returns_all_in_store_order() {
    let a = recipe("Soup", &["dinner"]);
    let b = recipe("Stew", &["dinner", "winter"]);
    let items = vec![Ok(encode(&a)), Ok(encode(&b))];
    assert_eq!(Query::recipes(items).unwrap(), vec![a, b]);
}

#[test]
fn recipes_fails_on_undecodable_document() {
    let items = vec![Ok(encode(&recipe("Soup", &[]))), Ok(untitled()), Ok(encode(&recipe("Stew", &[])))];
    let e = Query::recipes(items).unwrap_err();
    assert!(matches!(e.error_type, AppErrorType::DbError));
    assert_eq!(e.message, None);
    assert_eq!(e.message(), "An unexpected error has occurred");
}

#[test]
fn recipes_reports_store_failure() {
    let items = vec![Ok(encode(&recipe("Soup", &[]))), Err(store_failure()), Ok(untitled())];
    let e = Query::recipes(items).unwrap_err();
    assert!(matches!(e.error_type, AppErrorType::DbError));
    assert_eq!(e.cause.as_deref(), Some("connection reset"));
}

#[test]
fn recipes_reports_first_failure() {
    let items = vec![Ok(untitled()), Err(store_failure())];
    let e = Query::recipes(items).unwrap_err();
    assert_ne!(e.cause.as_deref(), Some("connection reset"));
}

#[test]
fn recipes_twice_gives_same_result() {
    let make = || vec![Ok(encode(&recipe("Soup", &["a"]))), Ok(encode(&recipe("Stew", &["b"])))];
    assert_eq!(Query::recipes(make()).unwrap(), Query::recipes(make()).unwrap());
    let bad = || vec![Ok(untitled())];
    let (e1, e2) = (Query::recipes(bad()).unwrap_err(), Query::recipes(bad()).unwrap_err());
    assert_eq!(e1.cause, e2.cause);
    assert_eq!(e1.message(), e2.message());
}

#[test]
fn recipe_found_is_decoded() {
    let pancakes = Document {
        entries: vec![
            Entry { key: "title".to_string(), value: DocValue::Str("Pancakes".to_string()) },
            Entry {
                key: "ingredients".to_string(),
                value: DocValue::Array(vec![DocValue::Doc(Document {
                    entries: vec![
                        Entry { key: "name".to_string(), value: DocValue::Str("flour".to_string()) },
                        Entry { key: "qty".to_string(), value: DocValue::Str("2 cups".to_string()) },
                    ],
                })]),
            },
            Entry {
                key: "instructions".to_string(),
                value: DocValue::Array(vec![
                    DocValue::Str("Mix".to_string()),
                    DocValue::Str("Cook".to_string()),
                ]),
            },
            Entry { key: "tags".to_string(), value: DocValue::Array(vec![DocValue::Str("breakfast".to_string())]) },
            Entry { key: "media".to_string(), value: DocValue::Array(vec![]) },
        ],
    };
    assert_eq!(Query::recipe(Some(pancakes)).unwrap(), recipe("Pancakes", &["breakfast"]));
}

#[test]
fn recipe_missing_is_not_found() {
    let e = Query::recipe(None).unwrap_err();
    assert!(matches!(e.error_type, AppErrorType::NotFoundError));
    assert_eq!(e.message, None);
    assert_eq!(e.cause, None);
    assert_eq!(e.message(), "The requested item was not found");
}

#[test]
fn recipe_undecodable_is_db_error() {
    let e = Query::recipe(Some(untitled())).unwrap_err();
    assert!(matches!(e.error_type, AppErrorType::DbError));
}
