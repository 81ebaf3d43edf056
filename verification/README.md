# axum-error-sets

Typed, composable HTTP error sets for axum, with proved contracts.

Each handler lists the status codes it can return as a tuple of status code wrappers
(`(Unauthorized, NotFound<String>)`). The library reads such a tuple as a set of codes. Its
constructors ask, as a precondition, that a response be built from a code in its handler's
set, and a response only moves into a set that contains every code of the old one;
`new_unchecked` builds one from any code.

Layout:

- `src/lib.rs`: `ApiResponse`, `StatusProvider`, `ResultStatusExt`, `ApiResultExt`.
- `src/status.rs`: `Status`, a status code as a number from 100 to 999.
- `src/set.rs`: `StatusSet` (tuples of wrappers as sets of codes) and the laws of sets.
- `src/codes.rs`: one wrapper type for every 4xx and 5xx code.
- `src/api_error.rs`: `ErrorSet`, an error value with a code from a set.
- `src/result_ext.rs`: `StatusResultExt` and `ApiResultExt` for `ErrorSet`.
- `src/handlers.rs`: handlers that use error sets end to end.
- `src/external.rs`: the outside types the library carries and its calls into `http` and `axum-core`.
- `app/lib.rs`: the `IntoResponse`, `aide` and `utoipa` impls, on thin wrappers.
- `tests/`: tests on concrete values.
