# lauyer

The detail of an act of the Diário da República (DR), as its screen-services API serves it,
verified with Verus. The few calls into std, serde_json, chrono and uuid (lowercasing, reading
JSON text, reading a date, the clock, random UUIDs) stand behind trusted wrappers whose contracts say what the library
relies on.

- `src/detail.rs`: the act (`DrDetailResult`), the slug and year of its number, the reading of
  the API's answer (`parse_detail_response`) and the verdict on the HTTP status.
- `src/body.rs`: the JSON body of the detail request and the empty templates it carries.
- `src/render.rs`: the Markdown, JSON and table-row forms of an act.
- `src/date.rs`: the publication date and its `YYYY-MM-DD` text.
- `src/json.rs`: the JSON values that the library builds and reads, and the reading of JSON text.
- `src/text.rs`: decimal text, `u32` parsing, `/`-splitting and lowercasing.
- `app/`: the HTTP round trip, and the conversion of the request body into `serde_json`.

The search results of the DR site, with their own Markdown, JSON and table forms and the HTML
stripping of their summaries, belong to the search side of the client and are not part of this
crate.
