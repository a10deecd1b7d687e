# xero_cli

A command-line client for the Xero Accounting API, with its decision logic
written and proved in Verus.

- `src/` is the verified library: configuration (defaults, profiles, scope
  presets, file locations, editing one key of the configuration file), the
  request bodies each command sends and the parsing of request bodies read from
  files, the table rows each record is shown as and their layout as an aligned
  table or CSV, which cache entries `cache clear --resource` removes, report flattening and the
  combined aged reports, the command tree used for shell completions, and the
  error type with its messages.
- `app/` is the `xero` program around it: argument parsing, file and network
  I/O, and printing.
- `tests/` runs the library on concrete inputs.

The program reads its access token from `XERO_ACCESS_TOKEN` and its tenant from
the selected profile (`--profile`, else the configured active profile), else
`XERO_TENANT_ID`.

Not part of this program: the interactive OAuth login (PKCE), token refresh,
logout and client-credentials setup (those commands report an error), the
stored token file, the on-disk response cache (only `cache clear` and
`cache stats` over the cache directory are there), and the API rate limiter.
YAML output is printed as JSON.
