# lifehon

The backend of lifehon, a site where users record the tasks they finish in
their hobbies. It serves a GraphQL API to the site and a REST API to the
hobbies themselves.

- `src/` is the library, verified with Verus: the rows the service stores and
  their GraphQL views, the checks of request bodies, the authentication of
  both APIs, and every handler's decisions, written as step functions from
  what the handler has just learnt to what it does next. Database reads,
  token signing and HTTP stay outside; their results come in as arguments.
  The outside calls the library makes itself (encrypting and decrypting
  hobby tokens with simple_crypt, reading bytes as UTF-8) stand behind
  trusted wrappers, whose contracts say what the library relies on.
- `app/` is the server: axum routes, the async-graphql schema, the sqlx
  queries and the JSON web tokens. It runs the library's steps against the
  database and the request.
- `tests/` exercises the library's functions on concrete values.
