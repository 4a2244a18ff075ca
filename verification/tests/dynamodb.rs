use graph::load::posts_from_items;
use graph::searchapp::dynamodb::{
    all_posts, AttrValue, Attribute, Item, PollAction, ShardPoller,
    MAX_EMPTY_POLLS,
};
use graph::searchapp::model::Post;

fn s(name: &str, value: &str) -> Attribute {
    Attribute { name: name.to_string(), value: AttrValue::S(value.to_string()) }
}

fn item(attrs: Vec<Attribute>) -> Item {
    Item { attributes: attrs }
}

fn full_item() -> Item {
    item(vec![
        s("id", "p1"),
        s("category", "cars"),
        s("address", "Main Street 1"),
        s("subcategory", "sedan"),
        s("created", "2022-10-01"),
        s("description", "fiat panda"),
        s("title", "Fiat for sale"),
    ])
}

#[test]
fn full_item_reads_as_post() {
    let it = full_item();
    assert!(it.is_post());
    let p = Post::from_item(&it);
    assert_eq!(p.id, "p1");
    assert_eq!(p.category, "cars");
    assert_eq!(p.address, Some("Main Street 1".to_string()));
    assert_eq!(p.subcategory, Some("sedan".to_string()));
    assert_eq!(p.created, Some("2022-10-01".to_string()));
    assert_eq!(p.description, Some("fiat panda".to_string()));
    assert_eq!(p.title, Some("Fiat for sale".to_string()));
}

#[test]
fn absent_optional_fields_are_none() {
    let it = item(vec![s("category", "bikes"), s("id", "p2"), s("price", "10")]);
    let p = Post::try_from_item(&it).unwrap();
    assert_eq!(p.id, "p2");
    assert_eq!(p.category, "bikes");
    assert_eq!(p.address, None);
    assert_eq!(p.subcategory, None);
    assert_eq!(p.created, None);
    assert_eq!(p.description, None);
    assert_eq!(p.title, None);
}

#[test]
fn item_without_category_is_not_a_post() {
    let it = item(vec![s("id", "p3"), s("created", "c")]);
    assert!(!it.is_post());
    assert!(Post::try_from_item(&it).is_none());
}

#[test]
fn item_without_id_is_not_a_post() {
    let it = item(vec![s("category", "cars")]);
    assert!(!it.is_post());
    assert!(Post::try_from_item(&it).is_none());
}

#[test]
fn numeric_id_is_not_a_post() {
    let it = item(vec![
        Attribute { name: "id".to_string(), value: AttrValue::N("12".to_string()) },
        s("category", "cars"),
    ]);
    assert!(!it.is_post());
}

#[test]
fn non_string_optional_field_is_not_a_post() {
    let it = item(vec![
        s("id", "p4"),
        s("category", "cars"),
        Attribute { name: "title".to_string(), value: AttrValue::Bool(true) },
    ]);
    assert!(!it.is_post());
    assert!(Post::try_from_item(&it).is_none());
    let it2 = item(vec![
        s("id", "p4"),
        s("category", "cars"),
        Attribute { name: "address".to_string(), value: AttrValue::Null(true) },
    ]);
    assert!(!it2.is_post());
    let it3 = item(vec![
        s("id", "p4"),
        s("category", "cars"),
        Attribute { name: "created".to_string(), value: AttrValue::Other },
    ]);
    assert!(!it3.is_post());
}

#[test]
fn get_finds_first_attribute_of_a_name() {
    let it = item(vec![s("id", "first"), s("id", "second")]);
    match it.get("id") {
        Some(AttrValue::S(v)) => assert_eq!(v, "first"),
        _ => panic!("expected a string"),
    }
    assert!(it.get("category").is_none());
    assert_eq!(it.get_string("id"), Some("first".to_string()));
    assert_eq!(it.get_string("missing"), None);
}

#[test]
fn absent_or_string() {
    let it = item(vec![s("a", "x"), Attribute { name: "b".to_string(), value: AttrValue::N("1".to_string()) }]);
    assert!(it.is_absent_or_string("a"));
    assert!(!it.is_absent_or_string("b"));
    assert!(it.is_absent_or_string("c"));
}

#[test]
fn posts_from_items_keeps_order() {
    let items = vec![full_item(), item(vec![s("id", "p2"), s("category", "bikes")])];
    assert!(all_posts(&items));
    let posts = posts_from_items(&items);
    assert_eq!(posts.len(), 2);
    assert_eq!(posts[0].id, "p1");
    assert_eq!(posts[1].id, "p2");
    assert_eq!(posts[1].category, "bikes");
}

#[test]
fn all_posts_rejects_one_bad_item() {
    let items = vec![full_item(), item(vec![s("id", "p2")])];
    assert!(!all_posts(&items));
    let empty: Vec<Item> = Vec::new();
    assert!(all_posts(&empty));
    assert_eq!(posts_from_items(&empty).len(), 0);
}

#[test]
fn poller_gives_up_after_eleven_empty_polls_from_the_start() {
    let mut p = ShardPoller::new();
    assert_eq!(p.count(), 0);
    for _ in 0..10 {
        assert_eq!(p.on_poll(0), PollAction::Continue);
    }
    assert_eq!(p.count(), 10);
    assert_eq!(p.on_poll(0), PollAction::Stop);
    assert_eq!(p.count(), 11);
}

#[test]
fn poller_gives_up_on_the_tenth_empty_poll_after_records() {
    let mut p = ShardPoller::new();
    for _ in 0..5 {
        assert_eq!(p.on_poll(0), PollAction::Continue);
    }
    assert_eq!(p.on_poll(3), PollAction::Continue);
    assert_eq!(p.count(), 1);
    for _ in 0..9 {
        assert_eq!(p.on_poll(0), PollAction::Continue);
    }
    assert_eq!(p.on_poll(0), PollAction::Stop);
    assert_eq!(MAX_EMPTY_POLLS, 10);
}

#[test]
fn poller_that_gave_up_stays_so() {
    let mut p = ShardPoller::new();
    for _ in 0..11 {
        p.on_poll(0);
    }
    assert_eq!(p.on_poll(5), PollAction::Stop);
    assert_eq!(p.count(), 11);
}

#[test]
fn records_reset_the_count() {
    let mut p = ShardPoller::new();
    for _ in 0..9 {
        p.on_poll(0);
    }
    assert_eq!(p.on_poll(1), PollAction::Continue);
    assert_eq!(p.count(), 1);
}
