# axum-problem

RFC 9457 problem details for axum, with the decisions proved in Verus.

- `src/` is the verified library: status titles (`status.rs`), the `Problem` type,
  its builders and the response it is sent as (`problem.rs`), the `ProblemLayer`
  decision of which responses become problems (`layer.rs`), and the trusted
  declarations of the `serde_json` object type (`json.rs`).
- `app/` holds what Verus does not see: the serde form of a problem, `IntoResponse`,
  the tower `Layer` and `Service` impls, and the utoipa schema.
- `tests/` runs the library on concrete values.
