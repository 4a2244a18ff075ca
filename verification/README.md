# graph

A small classifieds search service: posts are loaded from a DynamoDB table into
a local sled store, indexed with tantivy, searched, and served over GraphQL.

- `src/` is the verified library (Verus). `searchapp::model` holds the post;
  `searchapp::dynamodb` reads table items as posts and decides when a stream
  shard reader gives up; `searchapp::graphql` keeps the in-memory users,
  builds the items that the mutations write, and routes HTTP requests;
  `searchapp::state` builds the index schema; `searchapp::index` builds the
  document of a post; `searchapp::search` holds the search parameters.
- `app/` is the program around it: the AWS, sled, tantivy index and HTTP I/O,
  the JSON and GraphQL glue, and `main`.
- `tests/` exercises the library on concrete values.

The GraphQL `search` query of the original delegated to a `SearchEngine` (and
answered `SearchResults`) that the original never defines; it is left out.
The search runs from the command line (`app search`) with the library's
parameters.
