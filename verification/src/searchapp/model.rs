use vstd::prelude::*;

verus! {

/// The view of an optional string: the characters it holds, if any.
pub open spec fn opt_string_view(o: Option<String>) -> Option<Seq<char>> {
    match o {
        Some(s) => Some(s@),
        None => None,
    }
}

/// Clones an optional string, keeping its contents.
pub fn clone_opt_string(o: &Option<String>) -> (r: Option<String>)
    ensures
        opt_string_view(r) == opt_string_view(*o),
{
    match o {
        Some(s) => Some(s.clone()),
        None => None,
    }
}

/// A classified post: what the table holds of it, what the local store
/// caches and what the search index is built from.
#[derive(Debug)]
pub struct Post {
    pub id: String,
    pub category: String,
    pub address: Option<String>,
    pub subcategory: Option<String>,
    pub created: Option<String>,
    pub description: Option<String>,
    pub title: Option<String>,
}

/// The mathematical value of a post: its fields as character sequences.
pub struct PostView {
    pub id: Seq<char>,
    pub category: Seq<char>,
    pub address: Option<Seq<char>>,
    pub subcategory: Option<Seq<char>>,
    pub created: Option<Seq<char>>,
    pub description: Option<Seq<char>>,
    pub title: Option<Seq<char>>,
}

impl View for Post {
    type V = PostView;

    open spec fn view(&self) -> PostView {
        PostView {
            id: self.id@,
            category: self.category@,
            address: opt_string_view(self.address),
            subcategory: opt_string_view(self.subcategory),
            created: opt_string_view(self.created),
            description: opt_string_view(self.description),
            title: opt_string_view(self.title),
        }
    }
}

/// The post that `Post::new` makes: the given id and creation time, an empty
/// category and no other field.
pub open spec fn new_post_view(id: Seq<char>, created: Seq<char>) -> PostView {
    PostView {
        id: id,
        category: Seq::empty(),
        address: None,
        subcategory: None,
        created: Some(created),
        description: None,
        title: None,
    }
}

/// The text that every post gives for its photos.
pub open spec fn photos_text() -> Seq<char> {
    "some photo"@
}

impl Clone for Post {
    fn clone(&self) -> (r: Self)
        ensures
            r@ == self@,
    {
        Post {
            id: self.id.clone(),
            category: self.category.clone(),
            address: clone_opt_string(&self.address),
            subcategory: clone_opt_string(&self.subcategory),
            created: clone_opt_string(&self.created),
            description: clone_opt_string(&self.description),
            title: clone_opt_string(&self.title),
        }
    }
}

impl Post {
    /// A post with the given id and creation time; its category is empty
    /// and it has no other field.
    pub fn new(id: String, created: String) -> (post: Post)
        ensures
            post@ == new_post_view(id@, created@),
    {
        Post {
            id,
            address: None,
            category: String::new(),
            subcategory: None,
            created: Some(created),
            description: None,
            title: None,
        }
    }

    pub fn id(&self) -> (r: String)
        ensures
            r@ == self@.id,
    {
        self.id.clone()
    }

    pub fn category(&self) -> (r: String)
        ensures
            r@ == self@.category,
    {
        self.category.clone()
    }

    pub fn address(&self) -> (r: Option<String>)
        ensures
            opt_string_view(r) == self@.address,
    {
        clone_opt_string(&self.address)
    }

    pub fn subcategory(&self) -> (r: Option<String>)
        ensures
            opt_string_view(r) == self@.subcategory,
    {
        clone_opt_string(&self.subcategory)
    }

    pub fn created(&self) -> (r: Option<String>)
        ensures
            opt_string_view(r) == self@.created,
    {
        clone_opt_string(&self.created)
    }

    pub fn description(&self) -> (r: Option<String>)
        ensures
            opt_string_view(r) == self@.description,
    {
        clone_opt_string(&self.description)
    }

    pub fn title(&self) -> (r: Option<String>)
        ensures
            opt_string_view(r) == self@.title,
    {
        clone_opt_string(&self.title)
    }

    /// The photos of a post: the same text for every post.
    pub fn photos(&self) -> (r: String)
        ensures
            r@ == photos_text(),
    {
        String::from_str("some photo")
    }
}

/// A new post has the given id and creation time, an empty category, and no
/// address, subcategory, description or title.
pub proof fn new_post_fields(id: Seq<char>, created: Seq<char>)
    ensures
        new_post_view(id, created).id == id,
        new_post_view(id, created).created == Some(created),
        new_post_view(id, created).category.len() == 0,
        new_post_view(id, created).address is None,
        new_post_view(id, created).subcategory is None,
        new_post_view(id, created).description is None,
        new_post_view(id, created).title is None,
{
}

/// The view of a post holds each of its fields under the same name.
pub proof fn post_view_fields(p: Post)
    ensures
        p@.id == p.id@,
        p@.category == p.category@,
        p@.address == opt_string_view(p.address),
        p@.subcategory == opt_string_view(p.subcategory),
        p@.created == opt_string_view(p.created),
        p@.description == opt_string_view(p.description),
        p@.title == opt_string_view(p.title),
        forall|o: Option<String>| #[trigger] opt_string_view(o) is None <==> o is None,
        forall|s: String| #[trigger] opt_string_view(Some(s)) == Some(s@),
{
}

} // verus!
