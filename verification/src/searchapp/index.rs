use vstd::prelude::*;

use crate::searchapp::model::{opt_string_view, Post, PostView};
use crate::searchapp::state::{
    post_fields_of, post_schema_fields, post_schema_has_post_fields, PostFields,
};

verus! {

/// How many bytes the index writer may use for its heap.
pub const INDEX_WRITER_HEAP_BYTES: usize = 20_000_000;

#[verifier::external_type_specification]
#[verifier::external_body]
pub struct ExDocument(tantivy::Document);

/// The (field, value) pairs of a document, in the order they were added: the
/// field id, the value as a string, and whether the value was added as the
/// bytes of that string (`true`) or as text (`false`).
pub uninterp spec fn document_entries(d: tantivy::Document) -> Seq<(u32, Seq<char>, bool)>;

/// `tantivy::Document::new`: a document with no field value.
#[verifier::external_body]
fn document_new() -> (d: tantivy::Document)
    ensures
        document_entries(d) == Seq::<(u32, Seq<char>, bool)>::empty(),
{
    tantivy::Document::new()
}

/// `Document::add_text`: appends the text as a value of the field.
#[verifier::external_body]
fn document_add_text(d: &mut tantivy::Document, field: u32, text: &str)
    ensures
        document_entries(*final(d)) == document_entries(*old(d)).push((field, text@, false)),
{
    d.add_text(tantivy::schema::Field::from_field_id(field), text)
}

/// `Document::add_bytes`: appends the UTF-8 bytes of the string as a value of the field.
#[verifier::external_body]
fn document_add_bytes(d: &mut tantivy::Document, field: u32, value: &str)
    ensures
        document_entries(*final(d)) == document_entries(*old(d)).push((field, value@, true)),
{
    d.add_bytes(tantivy::schema::Field::from_field_id(field), value.as_bytes())
}

/// The entry of an optional text field: one entry where the post has the
/// field, none where it does not.
pub open spec fn optional_text(field: u32, value: Option<Seq<char>>) -> Seq<(u32, Seq<char>, bool)> {
    match value {
        Some(v) => seq![(field, v, false)],
        None => Seq::empty(),
    }
}

/// The document of a post: its id as bytes, then its address, category,
/// subcategory, creation time, description and title as text, each optional
/// one only where the post has it.
pub open spec fn post_entries(post: PostView, fields: PostFields) -> Seq<(u32, Seq<char>, bool)> {
    seq![(fields.id, post.id, true)]
        + optional_text(fields.address, post.address)
        + seq![(fields.category, post.category, false)]
        + optional_text(fields.subcategory, post.subcategory)
        + optional_text(fields.created, post.created)
        + optional_text(fields.description, post.description)
        + optional_text(fields.title, post.title)
}

fn add_optional_text(d: &mut tantivy::Document, field: u32, value: &Option<String>)
    ensures
        document_entries(*final(d)) == document_entries(*old(d)) + optional_text(
            field,
            opt_string_view(*value),
        ),
{
    match value {
        Some(v) => {
            document_add_text(d, field, v.as_str());
        },
        None => {
            assert(document_entries(*d) =~= document_entries(*d) + Seq::<(u32, Seq<char>, bool)>::empty());
        },
    }
}

/// The document that indexes a post.
pub fn post_document(post: &Post, fields: &PostFields) -> (d: tantivy::Document)
    ensures
        document_entries(d) == post_entries(post@, *fields),
{
    let mut d = document_new();
    document_add_bytes(&mut d, fields.id, post.id.as_str());
    add_optional_text(&mut d, fields.address, &post.address);
    document_add_text(&mut d, fields.category, post.category.as_str());
    add_optional_text(&mut d, fields.subcategory, &post.subcategory);
    add_optional_text(&mut d, fields.created, &post.created);
    add_optional_text(&mut d, fields.description, &post.description);
    add_optional_text(&mut d, fields.title, &post.title);
    assert(document_entries(d) =~= post_entries(post@, *fields));
    d
}

/// An entry is in `[e]` exactly when it is `e`.
proof fn contains_single(e: (u32, Seq<char>, bool), x: (u32, Seq<char>, bool))
    ensures
        seq![e].contains(x) <==> x == e,
{
    if x == e {
        assert(seq![e][0] == x);
    }
}

/// An entry is in a concatenation exactly when it is in one of its parts.
proof fn contains_concat(
    a: Seq<(u32, Seq<char>, bool)>,
    b: Seq<(u32, Seq<char>, bool)>,
    x: (u32, Seq<char>, bool),
)
    ensures
        (a + b).contains(x) <==> a.contains(x) || b.contains(x),
{
    if (a + b).contains(x) {
        let i = choose|i: int| 0 <= i < (a + b).len() && (a + b)[i] == x;
        if i < a.len() {
            assert(a[i] == x);
        } else {
            assert(b[i - a.len()] == x);
        }
    }
    if a.contains(x) {
        let i = choose|i: int| 0 <= i < a.len() && a[i] == x;
        assert((a + b)[i] == x);
    }
    if b.contains(x) {
        let i = choose|i: int| 0 <= i < b.len() && b[i] == x;
        assert((a + b)[i + a.len()] == x);
    }
}

/// The entry of an optional field is there exactly when the post has the field.
proof fn contains_optional(field: u32, value: Option<Seq<char>>, x: (u32, Seq<char>, bool))
    ensures
        optional_text(field, value).contains(x) <==> value is Some && x == (field, value->0, false),
{
    match value {
        Some(v) => contains_single((field, v, false), x),
        None => {},
    }
}

/// The seven fields of a post document have seven different ids.
pub open spec fn distinct_fields(f: PostFields) -> bool {
    let ids = seq![f.id, f.address, f.category, f.subcategory, f.created, f.description, f.title];
    forall|i: int, j: int| 0 <= i < j < 7 ==> ids[i] != ids[j]
}

/// A post's document holds each field of the post under the schema field of
/// the same name and nowhere else: the id, as bytes, under the id field; the
/// category, as text, under the category field; and each optional field, as
/// text, under its own field exactly when the post has it. No other entry is
/// there.
pub proof fn document_fields_by_name(post: PostView, fields: PostFields)
    requires
        distinct_fields(fields),
    ensures
        forall|v: Seq<char>, b: bool|
            post_entries(post, fields).contains((fields.id, v, b)) <==> v == post.id && b,
        forall|v: Seq<char>, b: bool|
            post_entries(post, fields).contains((fields.category, v, b)) <==> v == post.category
                && !b,
        forall|v: Seq<char>, b: bool|
            post_entries(post, fields).contains((fields.address, v, b)) <==> post.address == Some(v)
                && !b,
        forall|v: Seq<char>, b: bool|
            post_entries(post, fields).contains((fields.subcategory, v, b)) <==> post.subcategory
                == Some(v) && !b,
        forall|v: Seq<char>, b: bool|
            post_entries(post, fields).contains((fields.created, v, b)) <==> post.created == Some(v)
                && !b,
        forall|v: Seq<char>, b: bool|
            post_entries(post, fields).contains((fields.description, v, b)) <==> post.description
                == Some(v) && !b,
        forall|v: Seq<char>, b: bool|
            post_entries(post, fields).contains((fields.title, v, b)) <==> post.title == Some(v)
                && !b,
        forall|x: (u32, Seq<char>, bool)|
            #[trigger] post_entries(post, fields).contains(x) ==> x.0 == fields.id || x.0
                == fields.address || x.0 == fields.category || x.0 == fields.subcategory || x.0
                == fields.created || x.0 == fields.description || x.0 == fields.title,
{
    let ids = seq![
        fields.id,
        fields.address,
        fields.category,
        fields.subcategory,
        fields.created,
        fields.description,
        fields.title,
    ];
    assert(ids[0] == fields.id && ids[1] == fields.address && ids[2] == fields.category);
    assert(ids[3] == fields.subcategory && ids[4] == fields.created);
    assert(ids[5] == fields.description && ids[6] == fields.title);
    let p0 = seq![(fields.id, post.id, true)];
    let p1 = optional_text(fields.address, post.address);
    let p2 = seq![(fields.category, post.category, false)];
    let p3 = optional_text(fields.subcategory, post.subcategory);
    let p4 = optional_text(fields.created, post.created);
    let p5 = optional_text(fields.description, post.description);
    let p6 = optional_text(fields.title, post.title);
    assert forall|x: (u32, Seq<char>, bool)| #[trigger] post_entries(post, fields).contains(x) <==> {
        ||| x == (fields.id, post.id, true)
        ||| post.address is Some && x == (fields.address, post.address->0, false)
        ||| x == (fields.category, post.category, false)
        ||| post.subcategory is Some && x == (fields.subcategory, post.subcategory->0, false)
        ||| post.created is Some && x == (fields.created, post.created->0, false)
        ||| post.description is Some && x == (fields.description, post.description->0, false)
        ||| post.title is Some && x == (fields.title, post.title->0, false)
    } by {
        contains_concat(p0 + p1 + p2 + p3 + p4 + p5, p6, x);
        contains_concat(p0 + p1 + p2 + p3 + p4, p5, x);
        contains_concat(p0 + p1 + p2 + p3, p4, x);
        contains_concat(p0 + p1 + p2, p3, x);
        contains_concat(p0 + p1, p2, x);
        contains_concat(p0, p1, x);
        contains_single((fields.id, post.id, true), x);
        contains_single((fields.category, post.category, false), x);
        contains_optional(fields.address, post.address, x);
        contains_optional(fields.subcategory, post.subcategory, x);
        contains_optional(fields.created, post.created, x);
        contains_optional(fields.description, post.description, x);
        contains_optional(fields.title, post.title, x);
    }
}

/// The fields that the post schema gives a post document have seven
/// different ids, so each field of a post goes under its own schema field.
pub proof fn post_schema_fields_are_distinct()
    ensures
        distinct_fields(post_fields_of(post_schema_fields())),
{
    post_schema_has_post_fields();
}

} // verus!
