# deepwell roles and permissions

A verified library for the roles and permissions of a wiki platform.

- `src/text.rs`: ASCII case folding, decimal `i64` reading and separator
  positions over `Seq<char>`.
- `src/types.rs`, `src/permissions.rs`: references by id or slug, resources,
  actions and the `resource[:category]:action` permission syntax.
- `src/middleware.rs`: the request context read from request headers, from
  their raw bytes (header text by `http`'s rules) or from their text.
- `src/resolvers.rs`: resolving category references.
- `src/role.rs`: role records, the rows role operations write, virtual
  (system) roles and their selection.
- `src/user_roles.rs`: the lookup of every role a user holds in a site, as a
  step machine that asks the store one question at a time.
- `src/store.rs`: a model of the stored rows, which rows each store question
  returns and what each write does, with the laws that span several writes.
- `src/permission.rs`: granting permissions and the permission check, as a
  step machine with the law that it reaches `permission_granted`.

`app/` holds the asynchronous service layer: a `Store` trait for the
database, audit log and site relations, the drivers that run the step
machines against it, the tower middleware, and serde forms of the inputs.
