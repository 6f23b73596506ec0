# cosmic

Identifiers, points, kinds and the textual grammar of the cosmic resource mesh, as a library
verified with Verus.

## Layout

- `src/` the library. Its functions carry contracts that Verus proves; the few that call
  regex, semver, convert_case or std where vstd has no specification are small wrappers whose
  contracts Verus trusts, each with a doc comment that says what it claims of the call.
  - `text`, `case`: character classes, runs of characters, camel, skewer and domain names.
  - `point`, `parse`, `readback`: points (a route and segments), their text, the grammar that
    reads them, and the proof that a point reads back from its own text.
  - `env`, `resolve`, `subst`: scopes of variables and files, resolution of variables and of
    `.` / `..` against a working point, and texts with `${var}` substitutions.
  - `kind`, `kinds`, `kindparse`: specifics, base kinds, sub kinds and kinds, their text and
    the grammar that reads kind parts.
  - `layer`, `traversal`, `port`: the layers of a particle, traversal plans, waves travelling
    through the layers, and ports and their selectors.
  - `block`, `model`, `props`: nested, quoted and terminated blocks of text, scopes, and the
    property lists of set and get commands.
  - `errreport`: the report that goes with a parse error in each parse context.
  - `bind`, `document`: route and scope selectors, the root scope selector, and configuration
    documents with their comments blanked out.
  - `matching`: regular expressions held as their pattern text.
  - `interchange`, `auth`, `lane`: the decisions of the hyperway interchange, of token
    authentication and of a client's connection runner, and frames.
  - `command`, `error`, `report`, `fail`, `star`, `path`, `host`, `cli`, `sys`, `config`,
    `textmap`, `util`: commands, errors and their reports, star keys, paths, and the smaller
    records of the mesh.
- `tests/` tests of the library on concrete values.
- `app/` what the library leaves to its callers: file I/O, the serialized forms of the
  client's records, and the loops that drive the client runner and the interchange.

The laws of the library are public proof functions whose names begin with `law_`.
