use graph::searchapp::index::{post_document, INDEX_WRITER_HEAP_BYTES};
use graph::searchapp::model::Post;
use graph::searchapp::search::id_from_bytes;
use graph::searchapp::state::{get_schema, id_field, post_fields, PostFields};
use tantivy::schema::{Field, FieldType, IndexRecordOption};
use tantivy::schema::{Schema, TEXT};

fn fields() -> PostFields {
    post_fields(&get_schema()).unwrap()
}

#[test]
fn schema_gives_post_fields_in_order() {
    let f = fields();
    assert_eq!(
        f,
        PostFields { id: 0, address: 1, category: 2, subcategory: 3, created: 4, description: 5, title: 6 }
    );
    let schema = get_schema();
    assert_eq!(schema.num_fields(), 7);
    assert_eq!(schema.get_field_name(tantivy::schema::Field::from_field_id(0)), "id");
    assert_eq!(schema.get_field_name(tantivy::schema::Field::from_field_id(6)), "title");
}

#[test]
fn schema_without_a_post_field_has_no_post_fields() {
    let mut b = Schema::builder();
    b.add_text_field("id", TEXT);
    b.add_text_field("title", TEXT);
    assert!(post_fields(&b.build()).is_none());
}

#[test]
fn later_field_of_a_name_wins() {
    let mut b = Schema::builder();
    for name in ["id", "address", "category", "subcategory", "created", "description", "title", "id"] {
        b.add_text_field(name, TEXT);
    }
    let f = post_fields(&b.build()).unwrap();
    assert_eq!(f.id, 7);
    assert_eq!(f.title, 6);
}

#[test]
fn document_of_full_post() {
    let p = Post {
        id: "p1".to_string(),
        category: "cars".to_string(),
        address: Some("Main".to_string()),
        subcategory: Some("sedan".to_string()),
        created: Some("2022".to_string()),
        description: Some("fiat".to_string()),
        title: Some("Fiat".to_string()),
    };
    let d = post_document(&p, &fields());
    let vals = d.field_values();
    assert_eq!(vals.len(), 7);
    assert_eq!(vals[0].field().field_id(), 0);
    assert_eq!(vals[0].value().as_bytes(), Some("p1".as_bytes()));
    assert_eq!(vals[1].field().field_id(), 1);
    assert_eq!(vals[1].value().as_text(), Some("Main"));
    assert_eq!(vals[2].value().as_text(), Some("cars"));
    assert_eq!(vals[3].value().as_text(), Some("sedan"));
    assert_eq!(vals[4].value().as_text(), Some("2022"));
    assert_eq!(vals[5].value().as_text(), Some("fiat"));
    assert_eq!(vals[6].field().field_id(), 6);
    assert_eq!(vals[6].value().as_text(), Some("Fiat"));
}

#[test]
fn document_skips_absent_fields() {
    let p = Post::new("id1".to_string(), "created1".to_string());
    let d = post_document(&p, &fields());
    let vals = d.field_values();
    assert_eq!(vals.len(), 3);
    assert_eq!(vals[0].value().as_bytes(), Some("id1".as_bytes()));
    assert_eq!(vals[1].field().field_id(), 2);
    assert_eq!(vals[1].value().as_text(), Some(""));
    assert_eq!(vals[2].field().field_id(), 4);
    assert_eq!(vals[2].value().as_text(), Some("created1"));
}

#[test]
fn writer_heap_size() {
    assert_eq!(INDEX_WRITER_HEAP_BYTES, 20_000_000);
}

#[test]
fn schema_field_options() {
    let schema = get_schema();
    let id = schema.get_field_entry(Field::from_field_id(0));
    assert!(matches!(id.field_type(), FieldType::Bytes(_)));
    assert!(id.is_indexed());
    assert!(id.has_fieldnorms());
    assert!(id.is_fast());
    assert!(!id.is_stored());
    for n in 1..7 {
        let e = schema.get_field_entry(Field::from_field_id(n));
        match e.field_type() {
            FieldType::Str(opts) => {
                let ix = opts.get_indexing_options().unwrap();
                assert_eq!(ix.tokenizer(), "default");
                assert!(ix.fieldnorms());
                assert_eq!(ix.index_option(), IndexRecordOption::WithFreqsAndPositions);
                assert!(!opts.is_stored());
                assert!(!opts.is_fast());
            }
            _ => panic!("expected a text field"),
        }
    }
}

#[test]
fn id_field_of_schema() {
    assert_eq!(id_field(&get_schema()), Some(0));
    let mut b = Schema::builder();
    b.add_text_field("title", TEXT);
    assert_eq!(id_field(&b.build()), None);
}

#[test]
fn id_bytes_read_back() {
    let p = Post::new("straße-7".to_string(), "c".to_string());
    let d = post_document(&p, &fields());
    let bytes = d.field_values()[0].value().as_bytes().unwrap();
    assert_eq!(id_from_bytes(bytes), Some("straße-7".to_string()));
    assert_eq!(id_from_bytes(&[0xff, 0x61]), None);
    assert_eq!(id_from_bytes(&[]), Some("".to_string()));
}
