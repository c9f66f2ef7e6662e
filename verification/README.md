# ppslib

The session, sign-in and account-linking logic of a photo-posting web service,
verified with Verus.

- `src/` is the verified library. Its flows (`session::SessionSetup`,
  `oauth::LinkFlow`) are state machines: each step takes what came of the last
  action and names the next one, so the decisions are proved while the stores
  and the web framework stay outside.
- `app/` is the service around it: the Rocket routes, DynamoDB and PostgreSQL
  access, configuration and logging. It carries out the actions that the
  library's flows ask for.
- `tests/` runs the library on concrete cases.

Outside computations that the library relies on (SHA-256 from `sha2`, random
strings from `rand`, date arithmetic from `chrono`) are reached through small
trusted wrappers whose contracts are stated in their doc comments.
