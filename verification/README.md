# cdk-mintd

A Cashu mint server that settles over Lightning.

`src/` is the verified library: what the server decides. Each request handler is a chain of
steps; a step takes what the last call to the mint or to the Lightning node returned and says
which call comes next, or how the request is answered.

- `amount`: currency units and the scaling of amounts
- `response`: answers to failed requests
- `invoice`: reading BOLT11 payment requests
- `mint_quote`, `melt_quote`, `melt`: quoting and melting
- `pending`: the check of pending quotes at startup
- `router`: routes, and the watch for paid invoices
- `daemon`: file locations and the seed at startup
- `quote_state`: the states of mint quotes
- `run`: the calls that a whole request makes, and how it is answered

Functions named `law_..` state what holds of the library as a whole.

`app/` is the server around it: it makes the calls. It needs the crates `cdk`, `cdk-cln`,
`cdk-redb` and `cdk-sqlite` of the CDK workspace. `tests/` run the library.
