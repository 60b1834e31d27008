# wechat_mp_mcp

A WeChat Official Account publisher for structured book notes, served over MCP. A note (book,
author, reasons, summary, core points, thoughts, readers, actions) is checked, its text is
HTML-escaped, and it is rendered with one of four fixed Handlebars templates into article HTML;
the tools then manage covers, drafts and publishing through the WeChat API.

The library in `src/` is verified with Verus:

- `text`, `escape`, `json`: trimming as `str::trim` does, the HTML escaping of note fields (with
  a proof that escaping can be undone and never yields quotes), and the JSON data handed to the
  template engine.
- `engine`, `templates`, `template`: the Handlebars registry behind trusted wrappers, the four
  templates, and the note checks and rendering with exact error messages and size limits.
- `client`, `media`: WeChat error envelopes (with a proof that a formatted error is a token
  error exactly for codes 40014 and 42001), HTTP status errors, the access-token cache, response
  limits, settings, and the cover-image read as a state machine that resolves the path, checks
  it lies in the media root, checks the file's type, size and name, and only then reads it.
- `tools`, `server`: write gating, confirmations, article options and fields, list paging
  (drafts, published articles, permanent media by type),
  published-article deletion, the `we-user` header, host allowlists, transport and command line.

`app/` holds the HTTP and stdio server, the WeChat HTTP client and file access, built on `rmcp`,
`axum`, `reqwest` and `tokio`. It does the I/O and asks the library for every decision; of a
decoded JSON reply it only reads the `errcode`, `errmsg`, `rid` and `media_id` fields it hands
back to the library.
