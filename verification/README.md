# gvm_gateway

The verified core of a gateway in front of gvmd, the Greenbone
Vulnerability Manager daemon that speaks GMP.

`src/` is checked by Verus. It holds the domain types, the shared error
type with its stable codes and slugs, the page arithmetic and filter
composition of list requests with, per list endpoint, its fallback rule,
filter scope, reserved keywords and entry order, a stable sort for list
entries,
identifier and enumeration checks, the redacted renderings of credential
commands, and, under `gvmd/`, the decisions of the gvmd adapter: what each
request is checked for and which gvmd command it becomes, and how gvmd's
answers (failures included) turn into gateway results.

`app/` is ordinary asynchronous Rust around it: session-bound gvmd
connections and the adapter that sends the commands the library decides
on.

Layout of `src/`:

- `errors`: `GatewayError`, `ErrorCode`, codes and problem slugs.
- `pagination`, `filters`, `sorting`: list pages, GMP filter strings, and
  the order of list entries.
- `ids`, `text`, `redaction`: checked identifiers and enumerations, text
  helpers, log-safe renderings.
- `backend`: how gvmd failures map onto gateway errors.
- `domain`: query, command and result types.
- `gvmd`: per resource family, the commands requests become; `listings`
  binds each list endpoint to its page, filter and order rules, and
  `list_order` builds the sort keys of the ordered endpoints and the pages
  made of their entries in that order.
- `static_adapter`: the stand-in backend used while gvmd is unavailable.
