use graph::searchapp::graphql::PostInput;
use graph::searchapp::model::Post;

fn full_post() -> Post {
    Post {
        id: "p1".to_string(),
        category: "cars".to_string(),
        address: Some("Main Street 1".to_string()),
        subcategory: Some("sedan".to_string()),
        created: Some("2022-10-01".to_string()),
        description: Some("fiat panda".to_string()),
        title: Some("Fiat for sale".to_string()),
    }
}

#[test]
fn new_post_has_id_created_and_nothing_else() {
    let p = Post::new("id1".to_string(), "created1".to_string());
    assert_eq!(p.id, "id1");
    assert_eq!(p.category, "");
    assert_eq!(p.created, Some("created1".to_string()));
    assert_eq!(p.address, None);
    assert_eq!(p.subcategory, None);
    assert_eq!(p.description, None);
    assert_eq!(p.title, None);
}

#[test]
fn getters_give_the_fields() {
    let p = full_post();
    assert_eq!(p.id(), "p1");
    assert_eq!(p.category(), "cars");
    assert_eq!(p.address(), Some("Main Street 1".to_string()));
    assert_eq!(p.subcategory(), Some("sedan".to_string()));
    assert_eq!(p.created(), Some("2022-10-01".to_string()));
    assert_eq!(p.description(), Some("fiat panda".to_string()));
    assert_eq!(p.title(), Some("Fiat for sale".to_string()));
}

#[test]
fn getters_of_absent_fields_are_none() {
    let p = Post::new("a".to_string(), "b".to_string());
    assert_eq!(p.address(), None);
    assert_eq!(p.subcategory(), None);
    assert_eq!(p.description(), None);
    assert_eq!(p.title(), None);
    assert_eq!(p.category(), "");
}

#[test]
fn photos_is_the_same_text_for_every_post() {
    assert_eq!(full_post().photos(), "some photo");
    assert_eq!(Post::new("x".to_string(), "y".to_string()).photos(), "some photo");
}

#[test]
fn clone_keeps_every_field() {
    let p = full_post();
    let q = p.clone();
    assert_eq!(q.id, p.id);
    assert_eq!(q.category, p.category);
    assert_eq!(q.address, p.address);
    assert_eq!(q.subcategory, p.subcategory);
    assert_eq!(q.created, p.created);
    assert_eq!(q.description, p.description);
    assert_eq!(q.title, p.title);
}

#[test]
fn input_into_post_is_new_post() {
    let input = PostInput { id: "id1".to_string(), created: "created1".to_string() };
    let copy = input.clone();
    assert_eq!(copy.id, "id1");
    assert_eq!(copy.created, "created1");
    let p = input.into_post();
    assert_eq!(p.id, "id1");
    assert_eq!(p.created, Some("created1".to_string()));
    assert_eq!(p.category, "");
    assert_eq!(p.title, None);
}
