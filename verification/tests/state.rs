use graph::searchapp::search::{search_field, search_query, SEARCH_LIMIT};
use graph::searchapp::state::{
    get_table_name, index_path, load_region, local_db_path, posts_table_name, service_region,
};

#[test]
fn table_names() {
    assert_eq!(get_table_name(), "driveme");
    assert_eq!(posts_table_name(), "posts");
}

#[test]
fn regions_and_paths() {
    assert_eq!(service_region(), "eu-west-1");
    assert_eq!(load_region(), "eu-central-1");
    assert_eq!(local_db_path(), "sled");
    assert_eq!(index_path(), "index");
}

#[test]
fn search_parameters() {
    assert_eq!(search_query(), "fiat");
    assert_eq!(search_field(), "description");
    assert_eq!(SEARCH_LIMIT, 10);
}
