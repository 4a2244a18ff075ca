use vstd::prelude::*;

verus! {

/// The table that the classifieds are loaded from.
pub fn get_table_name() -> (name: &'static str)
    ensures
        name@ == "driveme"@,
{
    "driveme"
}

/// The table that the GraphQL server reads and writes posts in.
pub fn posts_table_name() -> (name: &'static str)
    ensures
        name@ == "posts"@,
{
    "posts"
}

/// The region of the tables that the server and the stream reader use.
pub fn service_region() -> (region: &'static str)
    ensures
        region@ == "eu-west-1"@,
{
    "eu-west-1"
}

/// The region of the table that the loader copies into the local store.
pub fn load_region() -> (region: &'static str)
    ensures
        region@ == "eu-central-1"@,
{
    "eu-central-1"
}

/// The directory of the local store of posts.
pub fn local_db_path() -> (path: &'static str)
    ensures
        path@ == "sled"@,
{
    "sled"
}

/// The directory of the search index.
pub fn index_path() -> (path: &'static str)
    ensures
        path@ == "index"@,
{
    "index"
}

#[verifier::external_type_specification]
#[verifier::external_body]
pub struct ExSchema(tantivy::schema::Schema);

#[verifier::external_type_specification]
#[verifier::external_body]
pub struct ExSchemaBuilder(tantivy::schema::SchemaBuilder);

/// One field of a schema, as this library describes it: its name; whether it
/// is a text field tokenized with tantivy's default tokenizer (`true`) or a
/// bytes field (`false`); and its options: indexed, with field norms, with
/// frequencies and positions recorded, fast, stored. Of fields of other kinds,
/// which this library never adds, the flags say nothing.
pub type FieldView = (Seq<char>, bool, bool, bool, bool, bool, bool);

/// The fields that a schema builder holds, by field id, each as `FieldView` describes it.
pub uninterp spec fn builder_fields(b: tantivy::schema::SchemaBuilder) -> Seq<(Seq<char>, bool, bool, bool, bool, bool, bool)>;

/// The fields that a schema holds, by field id, each as `FieldView` describes it.
pub uninterp spec fn schema_fields(s: tantivy::schema::Schema) -> Seq<(Seq<char>, bool, bool, bool, bool, bool, bool)>;

/// A text field with tantivy's `TEXT` options: tokenized with the default
/// tokenizer, indexed with field norms, frequencies and positions, neither
/// fast nor stored.
pub open spec fn text_field(name: Seq<char>) -> FieldView {
    (name, true, true, true, true, false, false)
}

/// A bytes field with tantivy's `INDEXED | FAST` options: indexed with field
/// norms and without positions, fast, not stored.
pub open spec fn indexed_fast_bytes_field(name: Seq<char>) -> FieldView {
    (name, false, true, true, false, true, false)
}

/// Tantivy accepts a field name that is not empty and does not start with `-`.
pub open spec fn valid_field_name(name: Seq<char>) -> bool {
    name.len() > 0 && name[0] != '-'
}

/// The field id that a schema gives a name: that of the last field of that name.
pub open spec fn field_named(fields: Seq<FieldView>, name: Seq<char>) -> Option<nat>
    decreases fields.len(),
{
    if fields.len() == 0 {
        None
    } else if fields.last().0 == name {
        Some((fields.len() - 1) as nat)
    } else {
        field_named(fields.drop_last(), name)
    }
}

/// `tantivy::schema::Schema::builder`: a builder with no field.
#[verifier::external_body]
fn schema_builder() -> (b: tantivy::schema::SchemaBuilder)
    ensures
        builder_fields(b) == Seq::<FieldView>::empty(),
{
    tantivy::schema::Schema::builder()
}

/// `SchemaBuilder::add_text_field` with tantivy's `TEXT` options: appends
/// `text_field(name)` and returns its id, the number of fields before it.
/// Tantivy asserts that the name is valid.
#[verifier::external_body]
fn add_text_field(b: &mut tantivy::schema::SchemaBuilder, name: &str) -> (field: u32)
    requires
        valid_field_name(name@),
        builder_fields(*old(b)).len() < u32::MAX,
    ensures
        builder_fields(*final(b)) == builder_fields(*old(b)).push(text_field(name@)),
        field == builder_fields(*old(b)).len(),
{
    b.add_text_field(name, tantivy::schema::TEXT).field_id()
}

/// `SchemaBuilder::add_bytes_field` with tantivy's `INDEXED | FAST` options:
/// appends `indexed_fast_bytes_field(name)` and returns its id, the number of
/// fields before it. Tantivy asserts that the name is valid.
#[verifier::external_body]
fn add_bytes_field(b: &mut tantivy::schema::SchemaBuilder, name: &str) -> (field: u32)
    requires
        valid_field_name(name@),
        builder_fields(*old(b)).len() < u32::MAX,
    ensures
        builder_fields(*final(b)) == builder_fields(*old(b)).push(indexed_fast_bytes_field(name@)),
        field == builder_fields(*old(b)).len(),
{
    b.add_bytes_field(name, tantivy::schema::INDEXED | tantivy::schema::FAST).field_id()
}

/// `SchemaBuilder::build`: a schema with the builder's fields.
#[verifier::external_body]
fn build_schema(b: tantivy::schema::SchemaBuilder) -> (s: tantivy::schema::Schema)
    ensures
        schema_fields(s) == builder_fields(b),
{
    b.build()
}

/// `Schema::get_field`: the id of the field of that name. The schema keeps a
/// map from names to fields in which a later field of a name replaces an
/// earlier one, so the id is that of the last field of the name.
#[verifier::external_body]
fn schema_get_field(s: &tantivy::schema::Schema, name: &str) -> (field: Option<u32>)
    ensures
        match field {
            Some(f) => field_named(schema_fields(*s), name@) == Some(f as nat),
            None => field_named(schema_fields(*s), name@) is None,
        },
{
    match s.get_field(name) {
        Some(f) => Some(f.field_id()),
        None => None,
    }
}

/// Looks up in a schema the field that holds a post's id.
pub fn id_field(s: &tantivy::schema::Schema) -> (field: Option<u32>)
    ensures
        match field {
            Some(f) => field_named(schema_fields(*s), "id"@) == Some(f as nat),
            None => field_named(schema_fields(*s), "id"@) is None,
        },
{
    schema_get_field(s, "id")
}

/// The fields of the post index, in the order of their ids: the id as an
/// indexed fast bytes field, then the other fields of a post as `TEXT` fields.
pub open spec fn post_schema_fields() -> Seq<FieldView> {
    seq![
        indexed_fast_bytes_field("id"@),
        text_field("address"@),
        text_field("category"@),
        text_field("subcategory"@),
        text_field("created"@),
        text_field("description"@),
        text_field("title"@),
    ]
}

/// The schema of the post index.
pub fn get_schema() -> (s: tantivy::schema::Schema)
    ensures
        schema_fields(s) == post_schema_fields(),
{
    proof {
        reveal_strlit("id");
        reveal_strlit("address");
        reveal_strlit("category");
        reveal_strlit("subcategory");
        reveal_strlit("created");
        reveal_strlit("description");
        reveal_strlit("title");
    }
    let mut b = schema_builder();
    add_bytes_field(&mut b, "id");
    add_text_field(&mut b, "address");
    add_text_field(&mut b, "category");
    add_text_field(&mut b, "subcategory");
    add_text_field(&mut b, "created");
    add_text_field(&mut b, "description");
    add_text_field(&mut b, "title");
    let s = build_schema(b);
    assert(schema_fields(s) =~= post_schema_fields());
    s
}

/// The ids of the fields that a post document fills.
#[derive(Debug, Clone, Copy, PartialEq, Eq, Structural)]
pub struct PostFields {
    pub id: u32,
    pub address: u32,
    pub category: u32,
    pub subcategory: u32,
    pub created: u32,
    pub description: u32,
    pub title: u32,
}

/// The schema has a field of each name that a post document fills.
pub open spec fn has_post_fields(fields: Seq<FieldView>) -> bool {
    &&& field_named(fields, "id"@) is Some
    &&& field_named(fields, "address"@) is Some
    &&& field_named(fields, "category"@) is Some
    &&& field_named(fields, "subcategory"@) is Some
    &&& field_named(fields, "created"@) is Some
    &&& field_named(fields, "description"@) is Some
    &&& field_named(fields, "title"@) is Some
}

/// The ids that a schema gives the fields of a post document.
pub open spec fn post_fields_of(fields: Seq<FieldView>) -> PostFields {
    PostFields {
        id: field_named(fields, "id"@)->0 as u32,
        address: field_named(fields, "address"@)->0 as u32,
        category: field_named(fields, "category"@)->0 as u32,
        subcategory: field_named(fields, "subcategory"@)->0 as u32,
        created: field_named(fields, "created"@)->0 as u32,
        description: field_named(fields, "description"@)->0 as u32,
        title: field_named(fields, "title"@)->0 as u32,
    }
}

/// Looks up in a schema the fields that a post document fills: `None` where
/// one of them is missing.
pub fn post_fields(s: &tantivy::schema::Schema) -> (r: Option<PostFields>)
    ensures
        r is Some <==> has_post_fields(schema_fields(*s)),
        r matches Some(f) ==> f == post_fields_of(schema_fields(*s)),
{
    let id = schema_get_field(s, "id");
    let address = schema_get_field(s, "address");
    let category = schema_get_field(s, "category");
    let subcategory = schema_get_field(s, "subcategory");
    let created = schema_get_field(s, "created");
    let description = schema_get_field(s, "description");
    let title = schema_get_field(s, "title");
    match (id, address, category, subcategory, created, description, title) {
        (Some(id), Some(address), Some(category), Some(subcategory), Some(created), Some(description), Some(title)) => {
            Some(PostFields { id, address, category, subcategory, created, description, title })
        },
        _ => None,
    }
}

/// Where no two fields share a name, each name gives the id of its field.
proof fn field_named_of_distinct(fields: Seq<FieldView>, k: int)
    requires
        0 <= k < fields.len(),
        forall|i: int, j: int| 0 <= i < j < fields.len() ==> fields[i].0 != fields[j].0,
    ensures
        field_named(fields, fields[k].0) == Some(k as nat),
    decreases fields.len(),
{
    if k < fields.len() - 1 {
        let d = fields.drop_last();
        assert(d[k] == fields[k]);
        assert(fields.last().0 != fields[k].0);
        field_named_of_distinct(d, k);
    }
}

/// The schema that `get_schema` builds has every field that a post document
/// fills, and gives them the ids 0 to 6 in the order of the schema.
pub proof fn post_schema_has_post_fields()
    ensures
        has_post_fields(post_schema_fields()),
        post_schema_fields().len() == 7,
        // The id field is a bytes field, indexed and fast, not stored.
        !post_schema_fields()[0].1 && post_schema_fields()[0].2 && post_schema_fields()[0].5
            && !post_schema_fields()[0].6,
        // Every other field is a text field, indexed with positions, neither fast nor stored.
        forall|k: int|
            1 <= k < 7 ==> #[trigger] post_schema_fields()[k].1 && post_schema_fields()[k].2
                && post_schema_fields()[k].4 && !post_schema_fields()[k].5
                && !post_schema_fields()[k].6,
        post_fields_of(post_schema_fields()) == (PostFields {
            id: 0,
            address: 1,
            category: 2,
            subcategory: 3,
            created: 4,
            description: 5,
            title: 6,
        }),
{
    reveal_strlit("id");
    reveal_strlit("address");
    reveal_strlit("category");
    reveal_strlit("subcategory");
    reveal_strlit("created");
    reveal_strlit("description");
    reveal_strlit("title");
    let f = post_schema_fields();
    let names = seq!["id"@, "address"@, "category"@, "subcategory"@, "created"@, "description"@, "title"@];
    assert forall|i: int, j: int| 0 <= i < j < 7 implies names[i] != names[j] by {
        if names[i].len() == names[j].len() {
            assert(names[i][0] != names[j][0]);
        }
    }
    assert(forall|i: int| 0 <= i < 7 ==> f[i].0 == names[i]);
    assert forall|k: int| 0 <= k < 7 implies field_named(f, #[trigger] f[k].0) == Some(k as nat) by {
        field_named_of_distinct(f, k);
    }
    assert(f[0].0 == "id"@ && f[6].0 == "title"@);
}

} // verus!
