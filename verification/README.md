# glyphic

The logic of a client for the Glyphic API (calls, call media and snippets,
call bots, call tags, playbooks), written in Verus and verified.

- `src/` is the verified library: the model of the string operations it uses
  (`text`), percent-encoding and UTF-8 decoding (`encoding`), identifier,
  body and API-key validation (`validation`), query strings built from JSON
  parameters (`query`), endpoint URLs (`endpoints`), authenticated requests
  and the reading of responses (`requests`), the error types and their
  mappings (`errors`), and the operations of the two component flavours
  (`component`, and `datasource`, which reports failures as JSON replies).
- `app/` sends the prepared requests with `wstd`'s HTTP client and hands the
  responses back to the library.
- `tests/` runs the library on concrete inputs.
