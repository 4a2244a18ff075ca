use vstd::prelude::*;

use crate::searchapp::dynamodb::{
    is_post_item, lookup, post_of_item, AttrValue, AttrValueView, Attribute, Item, ItemView,
};
use crate::searchapp::model::{new_post_view, Post, PostView};

verus! {

/// The item that `Item::for_new_post` writes for an input: the fields of the
/// post that `Post::new` makes of it, as strings: its id, its empty category
/// and its creation time.
pub open spec fn new_post_record(id: Seq<char>, created: Seq<char>) -> ItemView {
    seq![
        ("id"@, AttrValueView::S(id)),
        ("category"@, AttrValueView::S(Seq::empty())),
        ("created"@, AttrValueView::S(created)),
    ]
}

/// The key item that names a post by its id.
pub open spec fn id_key(id: Seq<char>) -> ItemView {
    seq![("id"@, AttrValueView::S(id))]
}

impl Item {
    /// The item written for a new post: the fields of the post that
    /// `Post::new` makes of the input, as strings (its id, its empty category
    /// and its creation time), so that it reads back as that post.
    pub fn for_new_post(input: &PostInput) -> (item: Item)
        ensures
            item@ == new_post_record(input.id@, input.created@),
    {
        let mut attributes: Vec<Attribute> = Vec::new();
        attributes.push(Attribute { name: "id".to_owned(), value: AttrValue::S(input.id.clone()) });
        attributes.push(Attribute { name: "category".to_owned(), value: AttrValue::S(String::new()) });
        attributes.push(
            Attribute { name: "created".to_owned(), value: AttrValue::S(input.created.clone()) },
        );
        let item = Item { attributes };
        assert(item@ =~= new_post_record(input.id@, input.created@));
        item
    }

    /// The key that names a post by its id.
    pub fn key_for_id(id: &String) -> (item: Item)
        ensures
            item@ == id_key(id@),
    {
        let mut attributes: Vec<Attribute> = Vec::new();
        attributes.push(Attribute { name: "id".to_owned(), value: AttrValue::S(id.clone()) });
        let item = Item { attributes };
        assert(item@ =~= id_key(id@));
        item
    }
}

/// What the client sends to add a post: an id and a creation time.
#[derive(Debug)]
pub struct PostInput {
    pub id: String,
    pub created: String,
}

impl Clone for PostInput {
    fn clone(&self) -> (r: Self)
        ensures
            r.id@ == self.id@,
            r.created@ == self.created@,
    {
        PostInput { id: self.id.clone(), created: self.created.clone() }
    }
}

impl PostInput {
    /// The post that an input describes: `Post::new` of its id and creation time.
    pub fn into_post(self) -> (post: Post)
        ensures
            post@ == new_post_view(self.id@, self.created@),
    {
        Post::new(self.id, self.created)
    }
}

/// The method of an HTTP request, as far as the server tells them apart.
#[derive(Debug, Clone, Copy, PartialEq, Eq, Structural)]
pub enum Method {
    Get,
    Post,
    Other,
}

/// Where the server sends a request.
#[derive(Debug, Clone, Copy, PartialEq, Eq, Structural)]
pub enum Route {
    /// The GraphiQL page, which talks to the GraphQL endpoint.
    GraphiQL,
    /// The GraphQL endpoint.
    GraphQL,
    /// Nothing is served there: answered with 404 and an empty body.
    NotFound,
}

/// The path of the GraphQL endpoint.
pub open spec fn graphql_path() -> Seq<char> {
    "/graphql"@
}

/// The route of a request: `GET /` is the GraphiQL page, `GET` or `POST` on
/// the GraphQL path is the endpoint, and anything else is not found.
pub open spec fn route_of(method: Method, path: Seq<char>) -> Route {
    if method == Method::Get && path == "/"@ {
        Route::GraphiQL
    } else if (method == Method::Get || method == Method::Post) && path == graphql_path() {
        Route::GraphQL
    } else {
        Route::NotFound
    }
}

/// The path of the GraphQL endpoint, for the GraphiQL page to talk to.
pub fn graphql_endpoint() -> (path: &'static str)
    ensures
        path@ == graphql_path(),
{
    "/graphql"
}

/// Routes a request by its method and path.
pub fn route(method: Method, path: &str) -> (r: Route)
    ensures
        r == route_of(method, path@),
{
    let p = path.to_owned();
    let root = "/".to_owned();
    let graphql = graphql_endpoint().to_owned();
    match method {
        Method::Get => {
            if p == root {
                Route::GraphiQL
            } else if p == graphql {
                Route::GraphQL
            } else {
                Route::NotFound
            }
        },
        Method::Post => {
            if p == graphql {
                Route::GraphQL
            } else {
                Route::NotFound
            }
        },
        Method::Other => Route::NotFound,
    }
}

/// No two posts of the sequence share an id.
pub open spec fn ids_distinct(s: Seq<PostView>) -> bool {
    forall|i: int, j: int| 0 <= i < s.len() && 0 <= j < s.len() && i != j ==> s[i].id != s[j].id
}

/// Some post of the sequence has the id `k`.
pub open spec fn has_id(s: Seq<PostView>, k: Seq<char>) -> bool {
    exists|i: int| 0 <= i < s.len() && s[i].id == k
}

/// `listed` lists the posts of the map `m` exactly once each, in some order:
/// no two share an id, each is the post that `m` holds under its id, and every
/// id of `m` is listed.
pub open spec fn lists_exactly(listed: Seq<PostView>, m: Map<Seq<char>, PostView>) -> bool {
    &&& ids_distinct(listed)
    &&& forall|i: int|
        0 <= i < listed.len() ==> m.contains_key(#[trigger] listed[i].id) && m[listed[i].id]
            == listed[i]
    &&& forall|k: Seq<char>| #[trigger] m.contains_key(k) ==> has_id(listed, k)
}

/// The posts of a sequence keyed by their ids.
pub open spec fn keyed_by_id(s: Seq<PostView>) -> Map<Seq<char>, PostView> {
    Map::new(
        |k: Seq<char>| has_id(s, k),
        |k: Seq<char>| s[choose|i: int| 0 <= i < s.len() && s[i].id == k],
    )
}

/// Where ids are distinct, the post found under an id is the one at its place.
proof fn keyed_by_id_at(s: Seq<PostView>, i: int)
    requires
        ids_distinct(s),
        0 <= i < s.len(),
    ensures
        keyed_by_id(s).contains_key(s[i].id),
        keyed_by_id(s)[s[i].id] == s[i],
{
    assert(has_id(s, s[i].id));
    let j = choose|j: int| 0 <= j < s.len() && s[j].id == s[i].id;
    assert(j == i);
}

/// The users that the server keeps in memory, one post per id.
pub struct UserStore {
    users: Vec<Post>,
}

impl View for UserStore {
    type V = Map<Seq<char>, PostView>;

    closed spec fn view(&self) -> Map<Seq<char>, PostView> {
        keyed_by_id(self.stored_posts())
    }
}

impl UserStore {
    spec fn stored_posts(self) -> Seq<PostView> {
        self.users@.map_values(|p: Post| p@)
    }

    #[verifier::type_invariant]
    spec fn one_post_per_id(self) -> bool {
        ids_distinct(self.stored_posts())
    }

    /// A store with no users.
    pub fn new() -> (store: UserStore)
        ensures
            store@ == Map::<Seq<char>, PostView>::empty(),
    {
        let store = UserStore { users: Vec::new() };
        assert(store@ =~= Map::<Seq<char>, PostView>::empty());
        store
    }

    /// Stores a post under its id, in place of any post stored there before.
    pub fn insert(&mut self, post: Post)
        ensures
            final(self)@ == old(self)@.insert(post@.id, post@),
    {
        proof {
            use_type_invariant(&*self);
        }
        let mut users: Vec<Post> = Vec::new();
        std::mem::swap(&mut users, &mut self.users);
        let ghost s = users@.map_values(|p: Post| p@);
        let ghost p = post@;
        assert(ids_distinct(s));
        let n = users.len();
        let mut j: usize = 0;
        while j < n
            invariant
                n == users@.len(),
                p == post@,
                s == users@.map_values(|q: Post| q@),
                j <= n,
                forall|i: int| 0 <= i < j ==> s[i].id != p.id,
            ensures
                j <= n,
                forall|i: int| 0 <= i < j ==> s[i].id != p.id,
                j < n ==> s[j as int].id == p.id,
            decreases n - j,
        {
            assert(s[j as int] == users@[j as int]@);
            if users[j].id == post.id {
                break;
            }
            j = j + 1;
        }
        let found = j < n;
        let ghost s2: Seq<PostView>;
        if found {
            users.set(j, post);
            proof {
                s2 = users@.map_values(|q: Post| q@);
                assert(s2 =~= s.update(j as int, p));
                assert(ids_distinct(s2));
                let m = keyed_by_id(s2);
                let m0 = keyed_by_id(s).insert(p.id, p);
                assert forall|k: Seq<char>| m.contains_key(k) <==> m0.contains_key(k) by {
                    if has_id(s, k) {
                        let i = choose|i: int| 0 <= i < s.len() && s[i].id == k;
                        if i == j {
                            assert(s2[i].id == k);
                        } else {
                            assert(s2[i].id == k);
                        }
                    }
                    if has_id(s2, k) {
                        let i = choose|i: int| 0 <= i < s2.len() && s2[i].id == k;
                        assert(s[i].id == k);
                    }
                }
                assert forall|k: Seq<char>| m.contains_key(k) implies m[k] == m0[k] by {
                    let i = choose|i: int| 0 <= i < s2.len() && s2[i].id == k;
                    keyed_by_id_at(s2, i);
                    if i == j {
                    } else {
                        assert(s[i] == s2[i]);
                        keyed_by_id_at(s, i);
                    }
                }
                assert(m =~= m0);
            }
        } else {
            users.push(post);
            proof {
                s2 = users@.map_values(|q: Post| q@);
                assert(s2 =~= s.push(p));
                assert(ids_distinct(s2));
                let m = keyed_by_id(s2);
                let m0 = keyed_by_id(s).insert(p.id, p);
                assert forall|k: Seq<char>| m.contains_key(k) <==> m0.contains_key(k) by {
                    if has_id(s, k) {
                        let i = choose|i: int| 0 <= i < s.len() && s[i].id == k;
                        assert(s2[i].id == k);
                    }
                    if k == p.id {
                        assert(s2[s.len() as int].id == k);
                    }
                    if has_id(s2, k) {
                        let i = choose|i: int| 0 <= i < s2.len() && s2[i].id == k;
                        if i < s.len() {
                            assert(s[i].id == k);
                        }
                    }
                }
                assert forall|k: Seq<char>| m.contains_key(k) implies m[k] == m0[k] by {
                    let i = choose|i: int| 0 <= i < s2.len() && s2[i].id == k;
                    keyed_by_id_at(s2, i);
                    if i < s.len() {
                        assert(s[i] == s2[i]);
                        keyed_by_id_at(s, i);
                    }
                }
                assert(m =~= m0);
            }
        }
        self.users = users;
    }

    /// Adds the user that `Post::new` makes of an id and a creation time, in
    /// place of any user with that id, and gives it back.
    pub fn add_user(&mut self, id: String, created: String) -> (post: Post)
        ensures
            post@ == new_post_view(id@, created@),
            final(self)@ == old(self)@.insert(id@, post@),
    {
        let post = Post::new(id, created);
        self.insert(post.clone());
        post
    }

    /// Adds the user that an input describes, in place of any user with its
    /// id, and gives it back.
    pub fn add_user_input(&mut self, input: PostInput) -> (post: Post)
        ensures
            post@ == new_post_view(input.id@, input.created@),
            final(self)@ == old(self)@.insert(input.id@, post@),
    {
        let post = input.into_post();
        self.insert(post.clone());
        post
    }

    /// Every stored user, once each, in no promised order.
    pub fn users(&self) -> (users: Vec<Post>)
        ensures
            lists_exactly(users@.map_values(|p: Post| p@), self@),
    {
        proof {
            use_type_invariant(self);
        }
        let ghost s = self.stored_posts();
        let mut out: Vec<Post> = Vec::new();
        let n = self.users.len();
        let mut i: usize = 0;
        while i < n
            invariant
                n == self.users@.len(),
                s == self.stored_posts(),
                i <= n,
                out@.len() == i,
                forall|j: int| 0 <= j < i ==> #[trigger] out@[j]@ == s[j],
            decreases n - i,
        {
            out.push(self.users[i].clone());
            i = i + 1;
        }
        proof {
            let o = out@.map_values(|p: Post| p@);
            assert(o =~= s);
            assert forall|j: int| 0 <= j < o.len() implies self@.contains_key(#[trigger] o[j].id)
                && self@[o[j].id] == o[j] by {
                keyed_by_id_at(s, j);
            }
            assert forall|k: Seq<char>| #[trigger] self@.contains_key(k) implies exists|j: int|
                0 <= j < o.len() && o[j].id == k by {
                let j = choose|j: int| 0 <= j < s.len() && s[j].id == k;
                assert(o[j].id == k);
            }
        }
        out
    }
}

/// The value under a key of an item of three attributes.
proof fn lookup_of_three(
    k0: Seq<char>,
    v0: AttrValueView,
    k1: Seq<char>,
    v1: AttrValueView,
    k2: Seq<char>,
    v2: AttrValueView,
    key: Seq<char>,
)
    ensures
        lookup(seq![(k0, v0), (k1, v1), (k2, v2)], key) == (if key == k0 {
            Some(v0)
        } else if key == k1 {
            Some(v1)
        } else if key == k2 {
            Some(v2)
        } else {
            None::<AttrValueView>
        }),
{
    let r = seq![(k0, v0), (k1, v1), (k2, v2)];
    let r1 = r.drop_first();
    let r2 = r1.drop_first();
    assert(r1 =~= seq![(k1, v1), (k2, v2)]);
    assert(r2 =~= seq![(k2, v2)]);
    assert(r2.drop_first().len() == 0);
    assert(lookup(r2.drop_first(), key) is None);
    assert(lookup(r2, key) == (if key == k2 {
        Some(v2)
    } else {
        None::<AttrValueView>
    }));
    assert(lookup(r1, key) == (if key == k1 {
        Some(v1)
    } else {
        lookup(r2, key)
    }));
    assert(r[0] == (k0, v0));
}

/// A post added through the mutation reads back from the table: the record
/// written for an input is an item that can be read as a post, and the post
/// read from it is the one that the mutation answers, `Post::new` of the
/// input's id and creation time.
pub proof fn added_post_reads_back(id: Seq<char>, created: Seq<char>)
    ensures
        is_post_item(new_post_record(id, created)),
        post_of_item(new_post_record(id, created)) == new_post_view(id, created),
{
    reveal_strlit("id");
    reveal_strlit("category");
    reveal_strlit("created");
    reveal_strlit("address");
    reveal_strlit("subcategory");
    reveal_strlit("description");
    reveal_strlit("title");
    let names = seq![
        "id"@,
        "category"@,
        "created"@,
        "address"@,
        "subcategory"@,
        "description"@,
        "title"@,
    ];
    assert forall|i: int, j: int| 0 <= i < j < 7 implies names[i] != names[j] by {
        if names[i].len() == names[j].len() {
            assert(names[i][0] != names[j][0]);
        }
    }
    let s_id = AttrValueView::S(id);
    let s_cat = AttrValueView::S(Seq::<char>::empty());
    let s_cr = AttrValueView::S(created);
    assert forall|k: int| 0 <= k < 7 implies lookup(new_post_record(id, created), #[trigger] names[k])
        == (if k == 0 {
        Some(s_id)
    } else if k == 1 {
        Some(s_cat)
    } else if k == 2 {
        Some(s_cr)
    } else {
        None::<AttrValueView>
    }) by {
        lookup_of_three("id"@, s_id, "category"@, s_cat, "created"@, s_cr, names[k]);
    }
    assert(names[0] == "id"@ && names[1] == "category"@ && names[2] == "created"@);
    assert(names[3] == "address"@ && names[4] == "subcategory"@);
    assert(names[5] == "description"@ && names[6] == "title"@);
}

/// After a user is added, the store holds under its id the post that
/// `Post::new` makes of the id and creation time, and every other user as
/// before.
pub proof fn added_user_is_stored(
    before: Map<Seq<char>, PostView>,
    id: Seq<char>,
    created: Seq<char>,
)
    ensures
        ({
            let after = before.insert(id, new_post_view(id, created));
            &&& after.contains_key(id)
            &&& after[id] == new_post_view(id, created)
            &&& forall|k: Seq<char>| k != id ==> (after.contains_key(k) <==> before.contains_key(k))
            &&& forall|k: Seq<char>| k != id && before.contains_key(k) ==> after[k] == before[k]
        }),
{
}

/// Adding users with the same id twice leaves the store as adding the second alone.
pub proof fn re_adding_replaces(
    before: Map<Seq<char>, PostView>,
    id: Seq<char>,
    first: PostView,
    second: PostView,
)
    ensures
        before.insert(id, first).insert(id, second) == before.insert(id, second),
{
    assert(before.insert(id, first).insert(id, second) =~= before.insert(id, second));
}

/// The store after a run of insertions, each of a post under an id, in order.
pub open spec fn after_inserts(
    m: Map<Seq<char>, PostView>,
    inserts: Seq<(Seq<char>, PostView)>,
) -> Map<Seq<char>, PostView>
    decreases inserts.len(),
{
    if inserts.len() == 0 {
        m
    } else {
        after_inserts(m.insert(inserts[0].0, inserts[0].1), inserts.drop_first())
    }
}

/// Insertions under other ids leave what the store holds under an id as it was.
pub proof fn inserts_of_other_ids_keep(
    m: Map<Seq<char>, PostView>,
    inserts: Seq<(Seq<char>, PostView)>,
    id: Seq<char>,
)
    requires
        forall|j: int| 0 <= j < inserts.len() ==> #[trigger] inserts[j].0 != id,
    ensures
        after_inserts(m, inserts).contains_key(id) == m.contains_key(id),
        m.contains_key(id) ==> after_inserts(m, inserts)[id] == m[id],
    decreases inserts.len(),
{
    if inserts.len() > 0 {
        assert(inserts[0].0 != id);
        let rest = inserts.drop_first();
        assert forall|j: int| 0 <= j < rest.len() implies #[trigger] rest[j].0 != id by {
            assert(rest[j] == inserts[j + 1]);
        }
        inserts_of_other_ids_keep(m.insert(inserts[0].0, inserts[0].1), rest, id);
    }
}

/// After a user is added, and then any users under other ids, a listing of
/// the store holds exactly one post with the first user's id, and it is the
/// post that `Post::new` made of that id and creation time.
pub proof fn last_added_user_is_listed_once(
    before: Map<Seq<char>, PostView>,
    id: Seq<char>,
    created: Seq<char>,
    later: Seq<(Seq<char>, PostView)>,
    listed: Seq<PostView>,
)
    requires
        forall|j: int| 0 <= j < later.len() ==> #[trigger] later[j].0 != id,
        lists_exactly(
            listed,
            after_inserts(before.insert(id, new_post_view(id, created)), later),
        ),
    ensures
        exists|i: int| 0 <= i < listed.len() && listed[i] == new_post_view(id, created),
        forall|i: int, j: int|
            0 <= i < listed.len() && 0 <= j < listed.len() && listed[i].id == id && listed[j].id
                == id ==> i == j,
        forall|i: int| 0 <= i < listed.len() && listed[i].id == id ==> listed[i] == new_post_view(id, created),
{
    let m = after_inserts(before.insert(id, new_post_view(id, created)), later);
    inserts_of_other_ids_keep(before.insert(id, new_post_view(id, created)), later, id);
    assert(m.contains_key(id));
    assert(m[id] == new_post_view(id, created));
    let i = choose|i: int| 0 <= i < listed.len() && listed[i].id == id;
    assert(listed[i] == new_post_view(id, created));
}

/// Where a request goes, told by its method and path alone: the GraphQL
/// endpoint exactly for `GET` and `POST` on `/graphql`, the GraphiQL page
/// exactly for `GET /`, and 404 for every other request.
pub proof fn routes_by_method_and_path(method: Method, path: Seq<char>)
    ensures
        route_of(method, path) == Route::GraphQL <==> (method == Method::Get || method
            == Method::Post) && path == "/graphql"@,
        route_of(method, path) == Route::GraphiQL <==> method == Method::Get && path == "/"@,
        route_of(method, path) == Route::NotFound <==> !((method == Method::Get || method
            == Method::Post) && path == "/graphql"@) && !(method == Method::Get && path == "/"@),
{
    reveal_strlit("/");
    reveal_strlit("/graphql");
    assert("/"@.len() != "/graphql"@.len());
}

/// The key that deletes a post names it by its id, as the string it was
/// written under: one attribute, `id`, holding the id as a string, whatever
/// characters the id holds, the same value that adding a post with that id
/// writes under `id`.
pub proof fn key_names_post_by_string_id(id: Seq<char>)
    ensures
        id_key(id).len() == 1,
        id_key(id)[0].0 == "id"@,
        id_key(id)[0].1 == AttrValueView::S(id),
        lookup(id_key(id), "id"@) == Some(AttrValueView::S(id)),
        forall|created: Seq<char>|
            lookup(id_key(id), "id"@) == lookup(#[trigger] new_post_record(id, created), "id"@),
{
    let k = id_key(id);
    assert(k.drop_first().len() == 0);
    assert forall|created: Seq<char>|
        lookup(id_key(id), "id"@) == lookup(#[trigger] new_post_record(id, created), "id"@) by {
        let r = new_post_record(id, created);
        assert(r[0] == ("id"@, AttrValueView::S(id)));
    }
}

} // verus!
