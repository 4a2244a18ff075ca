use vstd::prelude::*;

use crate::searchapp::model::{opt_string_view, Post, PostView};

verus! {

/// The value of one attribute of a table item, as far as this library reads it.
#[derive(Debug)]
pub enum AttrValue {
    /// A string.
    S(String),
    /// A number, written as the table writes numbers: a string of digits.
    N(String),
    /// A boolean.
    Bool(bool),
    /// The null marker.
    Null(bool),
    /// Any other kind of value (binary, sets, lists, maps).
    Other,
}

pub enum AttrValueView {
    S(Seq<char>),
    N(Seq<char>),
    Bool(bool),
    Null(bool),
    Other,
}

impl View for AttrValue {
    type V = AttrValueView;

    open spec fn view(&self) -> AttrValueView {
        match self {
            AttrValue::S(s) => AttrValueView::S(s@),
            AttrValue::N(n) => AttrValueView::N(n@),
            AttrValue::Bool(b) => AttrValueView::Bool(*b),
            AttrValue::Null(b) => AttrValueView::Null(*b),
            AttrValue::Other => AttrValueView::Other,
        }
    }
}

/// One named attribute of an item.
#[derive(Debug)]
pub struct Attribute {
    pub name: String,
    pub value: AttrValue,
}

/// A table item: its attributes, each under its name.
#[derive(Debug)]
pub struct Item {
    pub attributes: Vec<Attribute>,
}

/// The view of an item: the sequence of its (name, value) pairs.
pub type ItemView = Seq<(Seq<char>, AttrValueView)>;

impl View for Item {
    type V = ItemView;

    open spec fn view(&self) -> ItemView {
        self.attributes@.map_values(|a: Attribute| (a.name@, a.value@))
    }
}

/// The value that an item holds under `key`: that of the first attribute
/// with that name, or `None` where there is none.
pub open spec fn lookup(item: ItemView, key: Seq<char>) -> Option<AttrValueView>
    decreases item.len(),
{
    if item.len() == 0 {
        None
    } else if item[0].0 == key {
        Some(item[0].1)
    } else {
        lookup(item.drop_first(), key)
    }
}

/// The string that an item holds under `key`, where the value there is a string.
pub open spec fn item_string(item: ItemView, key: Seq<char>) -> Option<Seq<char>> {
    match lookup(item, key) {
        Some(AttrValueView::S(s)) => Some(s),
        _ => None,
    }
}

/// `key` is either absent from the item or holds a string.
pub open spec fn absent_or_string(item: ItemView, key: Seq<char>) -> bool {
    lookup(item, key) is None || item_string(item, key) is Some
}

/// An item that can be read as a post: `id` and `category` hold strings,
/// and each optional field of a post is absent or holds a string.
pub open spec fn is_post_item(item: ItemView) -> bool {
    &&& item_string(item, "id"@) is Some
    &&& item_string(item, "category"@) is Some
    &&& absent_or_string(item, "address"@)
    &&& absent_or_string(item, "subcategory"@)
    &&& absent_or_string(item, "created"@)
    &&& absent_or_string(item, "description"@)
    &&& absent_or_string(item, "title"@)
}

/// The post that an item describes: each field of the post is the string
/// under the attribute of the same name.
pub open spec fn post_of_item(item: ItemView) -> PostView {
    PostView {
        id: item_string(item, "id"@)->0,
        category: item_string(item, "category"@)->0,
        address: item_string(item, "address"@),
        subcategory: item_string(item, "subcategory"@),
        created: item_string(item, "created"@),
        description: item_string(item, "description"@),
        title: item_string(item, "title"@),
    }
}

impl Item {
    /// The value under `key`: that of the first attribute with that name.
    pub fn get(&self, key: &str) -> (r: Option<&AttrValue>)
        ensures
            match r {
                Some(v) => lookup(self@, key@) == Some(v@),
                None => lookup(self@, key@) is None,
            },
    {
        let k = key.to_owned();
        let n = self.attributes.len();
        let mut i: usize = 0;
        assert(self@.subrange(0, n as int) =~= self@);
        while i < n
            invariant
                n == self.attributes@.len(),
                i <= n,
                k@ == key@,
                lookup(self@, key@) == lookup(self@.subrange(i as int, n as int), key@),
            decreases n - i,
        {
            let a = &self.attributes[i];
            let ghost rest = self@.subrange(i as int, n as int);
            assert(rest[0] == (a.name@, a.value@));
            if a.name == k {
                return Some(&a.value);
            }
            assert(rest.drop_first() =~= self@.subrange(i + 1, n as int));
            i = i + 1;
        }
        assert(self@.subrange(n as int, n as int).len() == 0);
        None
    }

    /// The string under `key`, where the value there is a string.
    pub fn get_string(&self, key: &str) -> (r: Option<String>)
        ensures
            opt_string_view(r) == item_string(self@, key@),
    {
        match self.get(key) {
            Some(AttrValue::S(s)) => Some(s.clone()),
            _ => None,
        }
    }

    /// Whether `key` is absent or holds a string.
    pub fn is_absent_or_string(&self, key: &str) -> (r: bool)
        ensures
            r == absent_or_string(self@, key@),
    {
        match self.get(key) {
            None => true,
            Some(AttrValue::S(_)) => true,
            _ => false,
        }
    }

    /// Whether the item can be read as a post.
    pub fn is_post(&self) -> (r: bool)
        ensures
            r == is_post_item(self@),
    {
        self.get_string("id").is_some() && self.get_string("category").is_some()
            && self.is_absent_or_string("address") && self.is_absent_or_string("subcategory")
            && self.is_absent_or_string("created") && self.is_absent_or_string("description")
            && self.is_absent_or_string("title")
    }
}

impl Post {
    /// Reads a post from an item that describes one.
    pub fn from_item(item: &Item) -> (post: Post)
        requires
            is_post_item(item@),
        ensures
            post@ == post_of_item(item@),
    {
        let id = item.get_string("id");
        let category = item.get_string("category");
        Post {
            id: id.unwrap(),
            address: item.get_string("address"),
            category: category.unwrap(),
            subcategory: item.get_string("subcategory"),
            created: item.get_string("created"),
            description: item.get_string("description"),
            title: item.get_string("title"),
        }
    }

    /// Reads a post from an item, or `None` where the item does not describe one.
    pub fn try_from_item(item: &Item) -> (r: Option<Post>)
        ensures
            r is Some <==> is_post_item(item@),
            r matches Some(post) ==> post@ == post_of_item(item@),
    {
        if item.is_post() {
            Some(Post::from_item(item))
        } else {
            None
        }
    }
}

/// Reads every item as a post, in order.
pub fn posts_from_items(items: &Vec<Item>) -> (posts: Vec<Post>)
    requires
        forall|i: int| 0 <= i < items@.len() ==> is_post_item(#[trigger] items@[i]@),
    ensures
        posts@.len() == items@.len(),
        forall|i: int| 0 <= i < items@.len() ==> #[trigger] posts@[i]@ == post_of_item(items@[i]@),
{
    let mut posts: Vec<Post> = Vec::new();
    let n = items.len();
    let mut i: usize = 0;
    while i < n
        invariant
            n == items@.len(),
            i <= n,
            posts@.len() == i,
            forall|j: int| 0 <= j < items@.len() ==> is_post_item(#[trigger] items@[j]@),
            forall|j: int| 0 <= j < i ==> #[trigger] posts@[j]@ == post_of_item(items@[j]@),
        decreases n - i,
    {
        posts.push(Post::from_item(&items[i]));
        i = i + 1;
    }
    posts
}

/// Whether every item can be read as a post.
pub fn all_posts(items: &Vec<Item>) -> (r: bool)
    ensures
        r == (forall|i: int| 0 <= i < items@.len() ==> is_post_item(#[trigger] items@[i]@)),
{
    let n = items.len();
    let mut i: usize = 0;
    while i < n
        invariant
            n == items@.len(),
            i <= n,
            forall|j: int| 0 <= j < i ==> is_post_item(#[trigger] items@[j]@),
        decreases n - i,
    {
        if !items[i].is_post() {
            return false;
        }
        i = i + 1;
    }
    true
}

/// `item[i]` is the first attribute of the item named `key`.
pub open spec fn first_attribute(item: ItemView, key: Seq<char>, i: int) -> bool {
    &&& 0 <= i < item.len()
    &&& item[i].0 == key
    &&& forall|j: int| 0 <= j < i ==> item[j].0 != key
}

/// No attribute of the item is named `key`.
pub open spec fn no_attribute(item: ItemView, key: Seq<char>) -> bool {
    forall|j: int| 0 <= j < item.len() ==> item[j].0 != key
}

/// Where no attribute has the name, the item holds nothing under it.
pub proof fn lookup_absent(item: ItemView, key: Seq<char>)
    requires
        no_attribute(item, key),
    ensures
        lookup(item, key) is None,
    decreases item.len(),
{
    if item.len() > 0 {
        let r = item.drop_first();
        assert forall|j: int| 0 <= j < r.len() implies r[j].0 != key by {
            assert(r[j] == item[j + 1]);
        }
        lookup_absent(r, key);
    }
}

/// The item holds under a name the value of the first attribute of that name.
pub proof fn lookup_first(item: ItemView, key: Seq<char>, i: int)
    requires
        first_attribute(item, key, i),
    ensures
        lookup(item, key) == Some(item[i].1),
    decreases i,
{
    if i > 0 {
        let r = item.drop_first();
        assert(item[0].0 != key);
        assert(r[i - 1] == item[i]);
        assert forall|j: int| 0 <= j < i - 1 implies r[j].0 != key by {
            assert(r[j] == item[j + 1]);
        }
        lookup_first(r, key, i - 1);
    }
}

/// Either no attribute has the name, or one is the first of that name.
proof fn absent_or_first(item: ItemView, key: Seq<char>)
    ensures
        no_attribute(item, key) || exists|i: int| first_attribute(item, key, i),
    decreases item.len(),
{
    if item.len() > 0 && !no_attribute(item, key) {
        if item[0].0 == key {
            assert(first_attribute(item, key, 0));
        } else {
            let r = item.drop_first();
            absent_or_first(r, key);
            if no_attribute(r, key) {
                assert forall|j: int| 0 <= j < item.len() implies item[j].0 != key by {
                    if j > 0 {
                        assert(item[j] == r[j - 1]);
                    }
                }
            } else {
                let i = choose|i: int| first_attribute(r, key, i);
                assert(item[i + 1] == r[i]);
                assert forall|j: int| 0 <= j < i + 1 implies item[j].0 != key by {
                    if j > 0 {
                        assert(item[j] == r[j - 1]);
                    }
                }
                assert(first_attribute(item, key, i + 1));
            }
        }
    }
}

/// What the item holds under a name, told by its attributes: nothing where no
/// attribute has the name, and otherwise the value of the first that has it.
pub proof fn value_under_name(item: ItemView, key: Seq<char>)
    ensures
        no_attribute(item, key) ==> item_string(item, key) is None && lookup(item, key) is None,
        forall|i: int|
            #[trigger] first_attribute(item, key, i) ==> lookup(item, key) == Some(item[i].1),
        forall|i: int, v: Seq<char>|
            first_attribute(item, key, i) && item[i].1 == AttrValueView::S(v) ==> item_string(
                item,
                key,
            ) == Some(v),
        forall|i: int|
            first_attribute(item, key, i) && !(item[i].1 is S) ==> #[trigger] item_string(item, key)
                is None,
{
    if no_attribute(item, key) {
        lookup_absent(item, key);
    }
    assert forall|i: int| #[trigger] first_attribute(item, key, i) implies lookup(item, key) == Some(
        item[i].1,
    ) by {
        lookup_first(item, key, i);
    }
}

/// An item can be read as a post exactly when its first `id` and first
/// `category` attributes hold strings, and the first attribute of each
/// optional field of a post, where there is one, holds a string.
pub proof fn post_item_by_attributes(item: ItemView)
    ensures
        is_post_item(item) <==> {
            &&& exists|i: int| first_attribute(item, "id"@, i) && item[i].1 is S
            &&& exists|i: int| first_attribute(item, "category"@, i) && item[i].1 is S
            &&& forall|i: int| first_attribute(item, "address"@, i) ==> item[i].1 is S
            &&& forall|i: int| first_attribute(item, "subcategory"@, i) ==> item[i].1 is S
            &&& forall|i: int| first_attribute(item, "created"@, i) ==> item[i].1 is S
            &&& forall|i: int| first_attribute(item, "description"@, i) ==> item[i].1 is S
            &&& forall|i: int| first_attribute(item, "title"@, i) ==> item[i].1 is S
        },
{
    let keys = seq!["id"@, "category"@, "address"@, "subcategory"@, "created"@, "description"@, "title"@];
    assert forall|k: int| 0 <= k < 7 implies {
        &&& (item_string(item, #[trigger] keys[k]) is Some <==> exists|i: int|
            first_attribute(item, keys[k], i) && item[i].1 is S)
        &&& (absent_or_string(item, keys[k]) <==> forall|i: int|
            first_attribute(item, keys[k], i) ==> item[i].1 is S)
    } by {
        let key = keys[k];
        value_under_name(item, key);
        absent_or_first(item, key);
        if no_attribute(item, key) {
            assert forall|i: int| first_attribute(item, key, i) implies item[i].1 is S by {
                assert(item[i].0 == key);
            }
        } else {
            let i0 = choose|i: int| first_attribute(item, key, i);
            lookup_first(item, key, i0);
            assert forall|i: int| first_attribute(item, key, i) implies i == i0 by {
                if i < i0 {
                    assert(item[i].0 != key);
                } else if i > i0 {
                    assert(item[i0].0 != key);
                }
            }
        }
    }
    assert(keys[0] == "id"@ && keys[1] == "category"@ && keys[2] == "address"@);
    assert(keys[3] == "subcategory"@ && keys[4] == "created"@);
    assert(keys[5] == "description"@ && keys[6] == "title"@);
}

/// The post read from an item takes each of its fields from the item's own
/// attribute of the same name: the id and category are the strings of the
/// first `id` and `category` attributes, and each optional field is the string
/// of the first attribute of its name, or absent where the item has no
/// attribute of that name, whatever the other attributes hold.
pub proof fn read_post_fields_by_name(item: ItemView)
    requires
        is_post_item(item),
    ensures
        forall|i: int, v: Seq<char>|
            first_attribute(item, "id"@, i) && item[i].1 == AttrValueView::S(v)
                ==> post_of_item(item).id == v,
        forall|i: int, v: Seq<char>|
            first_attribute(item, "category"@, i) && item[i].1 == AttrValueView::S(v)
                ==> post_of_item(item).category == v,
        no_attribute(item, "address"@) ==> post_of_item(item).address is None,
        forall|i: int, v: Seq<char>|
            first_attribute(item, "address"@, i) && item[i].1 == AttrValueView::S(v)
                ==> post_of_item(item).address == Some(v),
        no_attribute(item, "subcategory"@) ==> post_of_item(item).subcategory is None,
        forall|i: int, v: Seq<char>|
            first_attribute(item, "subcategory"@, i) && item[i].1 == AttrValueView::S(v)
                ==> post_of_item(item).subcategory == Some(v),
        no_attribute(item, "created"@) ==> post_of_item(item).created is None,
        forall|i: int, v: Seq<char>|
            first_attribute(item, "created"@, i) && item[i].1 == AttrValueView::S(v)
                ==> post_of_item(item).created == Some(v),
        no_attribute(item, "description"@) ==> post_of_item(item).description is None,
        forall|i: int, v: Seq<char>|
            first_attribute(item, "description"@, i) && item[i].1 == AttrValueView::S(v)
                ==> post_of_item(item).description == Some(v),
        no_attribute(item, "title"@) ==> post_of_item(item).title is None,
        forall|i: int, v: Seq<char>|
            first_attribute(item, "title"@, i) && item[i].1 == AttrValueView::S(v)
                ==> post_of_item(item).title == Some(v),
{
    value_under_name(item, "id"@);
    value_under_name(item, "category"@);
    value_under_name(item, "address"@);
    value_under_name(item, "subcategory"@);
    value_under_name(item, "created"@);
    value_under_name(item, "description"@);
    value_under_name(item, "title"@);
}

/// How many polls in a row may bring no records, after the last that brought
/// some, before a shard reader gives up.
pub const MAX_EMPTY_POLLS: u32 = 10;

/// What a shard reader does after a poll.
#[derive(Debug, PartialEq, Eq, Structural)]
pub enum PollAction {
    /// Poll again, from the next shard iterator.
    Continue,
    /// Give up on this shard.
    Stop,
}

/// The counter after a poll that brought `received` records: one more than
/// before, or one where the poll brought records.
pub open spec fn count_after_poll(count: nat, received: nat) -> nat {
    if received > 0 {
        1
    } else {
        count + 1
    }
}

/// The counter after a run of polls, each given by the number of records it brought.
pub open spec fn count_after_polls(count: nat, batches: Seq<nat>) -> nat
    decreases batches.len(),
{
    if batches.len() == 0 {
        count
    } else {
        count_after_polls(count_after_poll(count, batches[0]), batches.drop_first())
    }
}

/// A reader has given up once its counter exceeds the limit.
pub open spec fn gives_up(count: nat) -> bool {
    count > MAX_EMPTY_POLLS
}

/// The decisions of a reader that follows one stream shard: it counts the
/// polls since the last one that brought records, and gives up when that
/// count passes the limit.
pub struct ShardPoller {
    count: u32,
}

impl View for ShardPoller {
    type V = nat;

    closed spec fn view(&self) -> nat {
        self.count as nat
    }
}

impl ShardPoller {
    #[verifier::type_invariant]
    spec fn count_bounded(self) -> bool {
        self.count <= MAX_EMPTY_POLLS + 1
    }

    /// A reader that has not polled yet.
    pub fn new() -> (p: ShardPoller)
        ensures
            p@ == 0,
    {
        ShardPoller { count: 0 }
    }

    /// The number of polls counted so far.
    pub fn count(&self) -> (c: u32)
        ensures
            c == self@,
    {
        self.count
    }

    /// Records a poll that brought `received` records, and says what to do next.
    /// A reader that has given up stays so.
    pub fn on_poll(&mut self, received: usize) -> (action: PollAction)
        ensures
            !gives_up(old(self)@) ==> final(self)@ == count_after_poll(old(self)@, received as nat),
            gives_up(old(self)@) ==> final(self)@ == old(self)@,
            action == (if gives_up(final(self)@) {
                PollAction::Stop
            } else {
                PollAction::Continue
            }),
    {
        proof {
            use_type_invariant(&*self);
        }
        if self.count > MAX_EMPTY_POLLS {
            return PollAction::Stop;
        }
        if received > 0 {
            self.count = 0;
        }
        self.count = self.count + 1;
        if self.count > MAX_EMPTY_POLLS {
            PollAction::Stop
        } else {
            PollAction::Continue
        }
    }
}

/// After a poll that brought records, the counter is the number of polls
/// made since, that one included.
pub proof fn count_since_last_records(count: nat, batches: Seq<nat>, k: int)
    requires
        0 <= k < batches.len(),
        batches[k] > 0,
        forall|j: int| k < j < batches.len() ==> batches[j] == 0,
    ensures
        count_after_polls(count, batches) == batches.len() - k,
    decreases batches.len(),
{
    if k == 0 {
        count_after_empty_polls(1, batches.drop_first());
    } else {
        count_since_last_records(
            count_after_poll(count, batches[0]),
            batches.drop_first(),
            k - 1,
        );
    }
}

/// Polls that bring no records each add one to the counter.
pub proof fn count_after_empty_polls(count: nat, batches: Seq<nat>)
    requires
        forall|j: int| 0 <= j < batches.len() ==> batches[j] == 0,
    ensures
        count_after_polls(count, batches) == count + batches.len(),
    decreases batches.len(),
{
    if batches.len() > 0 {
        count_after_empty_polls(count + 1, batches.drop_first());
    }
}

/// A reader gives up once ten polls in a row have brought no records after
/// the last poll that brought some, and not before; a reader that never got
/// records gives up on its eleventh empty poll.
pub proof fn gives_up_after_ten_empty_polls(batches: Seq<nat>, k: int)
    ensures
        (forall|j: int| 0 <= j < batches.len() ==> batches[j] == 0) ==> (gives_up(
            count_after_polls(0, batches),
        ) <==> batches.len() > 10),
        (0 <= k < batches.len() && batches[k] > 0 && forall|j: int|
            k < j < batches.len() ==> batches[j] == 0) ==> (gives_up(count_after_polls(0, batches))
            <==> batches.len() - k - 1 >= 10),
{
    if forall|j: int| 0 <= j < batches.len() ==> batches[j] == 0 {
        count_after_empty_polls(0, batches);
    }
    if 0 <= k < batches.len() && batches[k] > 0 && forall|j: int|
        k < j < batches.len() ==> batches[j] == 0 {
        count_since_last_records(0, batches, k);
    }
}

} // verus!
