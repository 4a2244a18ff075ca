use graph::searchapp::dynamodb::{AttrValue, Item};
use graph::searchapp::graphql::{graphql_endpoint, route, Method, PostInput, Route, UserStore};
use graph::searchapp::model::Post;

#[test]
fn root_get_is_graphiql() {
    assert_eq!(route(Method::Get, "/"), Route::GraphiQL);
}

#[test]
fn graphql_get_and_post_reach_the_endpoint() {
    assert_eq!(route(Method::Get, "/graphql"), Route::GraphQL);
    assert_eq!(route(Method::Post, "/graphql"), Route::GraphQL);
    assert_eq!(graphql_endpoint(), "/graphql");
}

#[test]
fn everything_else_is_not_found() {
    assert_eq!(route(Method::Post, "/"), Route::NotFound);
    assert_eq!(route(Method::Other, "/graphql"), Route::NotFound);
    assert_eq!(route(Method::Other, "/"), Route::NotFound);
    assert_eq!(route(Method::Get, "/graphql/"), Route::NotFound);
    assert_eq!(route(Method::Get, ""), Route::NotFound);
    assert_eq!(route(Method::Get, "/other"), Route::NotFound);
}

fn ids(posts: &[Post]) -> Vec<String> {
    let mut v: Vec<String> = posts.iter().map(|p| p.id.clone()).collect();
    v.sort();
    v
}

#[test]
fn empty_store_lists_no_user() {
    let store = UserStore::new();
    assert!(store.users().is_empty());
}

#[test]
fn added_user_is_listed() {
    let mut store = UserStore::new();
    let p = store.add_user("id1".to_string(), "created1".to_string());
    assert_eq!(p.id, "id1");
    assert_eq!(p.created, Some("created1".to_string()));
    let users = store.users();
    assert_eq!(users.len(), 1);
    assert_eq!(users[0].id, "id1");
    assert_eq!(users[0].created, Some("created1".to_string()));
    assert_eq!(users[0].category, "");
}

#[test]
fn adding_the_same_id_replaces() {
    let mut store = UserStore::new();
    store.add_user("id1".to_string(), "first".to_string());
    store.add_user("id2".to_string(), "other".to_string());
    store.add_user("id1".to_string(), "second".to_string());
    let users = store.users();
    assert_eq!(ids(&users), vec!["id1".to_string(), "id2".to_string()]);
    let u1 = users.iter().find(|p| p.id == "id1").unwrap();
    assert_eq!(u1.created, Some("second".to_string()));
    let u2 = users.iter().find(|p| p.id == "id2").unwrap();
    assert_eq!(u2.created, Some("other".to_string()));
}

#[test]
fn add_user_input_stores_the_input() {
    let mut store = UserStore::new();
    let p = store.add_user_input(PostInput { id: "a".to_string(), created: "b".to_string() });
    assert_eq!(p.id, "a");
    assert_eq!(p.created, Some("b".to_string()));
    let users = store.users();
    assert_eq!(users.len(), 1);
    assert_eq!(users[0].created, Some("b".to_string()));
}

#[test]
fn insert_keeps_all_fields() {
    let mut store = UserStore::new();
    let mut p = Post::new("x".to_string(), "c".to_string());
    p.title = Some("t".to_string());
    store.insert(p);
    let users = store.users();
    assert_eq!(users[0].title, Some("t".to_string()));
}

#[test]
fn new_post_record_holds_the_new_post() {
    let input = PostInput { id: "id1".to_string(), created: "created1".to_string() };
    let it = Item::for_new_post(&input);
    assert_eq!(it.attributes.len(), 3);
    assert_eq!(it.attributes[0].name, "id");
    assert_eq!(it.attributes[1].name, "category");
    assert_eq!(it.attributes[2].name, "created");
    assert_eq!(it.get_string("id"), Some("id1".to_string()));
    assert_eq!(it.get_string("category"), Some("".to_string()));
    assert_eq!(it.get_string("created"), Some("created1".to_string()));
    assert!(it.is_post());
}

#[test]
fn added_post_reads_back_as_the_answered_post() {
    let input = PostInput { id: "id1".to_string(), created: "created1".to_string() };
    let it = Item::for_new_post(&input);
    let answered = input.into_post();
    let read = Post::try_from_item(&it).unwrap();
    assert_eq!(read.id, answered.id);
    assert_eq!(read.id, "id1");
    assert_eq!(read.created, Some("created1".to_string()));
    assert_eq!(read.created, answered.created);
    assert_eq!(read.category, answered.category);
    assert_eq!(read.address, None);
    assert_eq!(read.subcategory, None);
    assert_eq!(read.description, None);
    assert_eq!(read.title, None);
}

#[test]
fn added_user_stays_listed_after_other_adds() {
    let mut store = UserStore::new();
    store.add_user("id1".to_string(), "created1".to_string());
    store.add_user("id2".to_string(), "x".to_string());
    store.add_user_input(PostInput { id: "id3".to_string(), created: "y".to_string() });
    let users = store.users();
    let with_id: Vec<&Post> = users.iter().filter(|p| p.id == "id1").collect();
    assert_eq!(with_id.len(), 1);
    assert_eq!(with_id[0].created, Some("created1".to_string()));
    assert_eq!(with_id[0].category, "");
}

#[test]
fn key_for_id_names_the_post() {
    let it = Item::key_for_id(&"id9".to_string());
    assert_eq!(it.attributes.len(), 1);
    assert_eq!(it.attributes[0].name, "id");
    match &it.attributes[0].value {
        AttrValue::S(v) => assert_eq!(v, "id9"),
        _ => panic!("expected a string"),
    }
}
