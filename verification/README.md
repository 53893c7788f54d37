# ruarango

The core of an `ArangoDB` driver, verified with Verus.

`src/` is the library. It decides what each request sends and where, and
what each answer means:

- `query`, `text`: query strings and their parameters, decimal and boolean
  text;
- `url`, `header`: url parsing and joining (through `reqwest`'s `Url`) and
  conditional request headers, held in `reqwest`'s `HeaderMap`, whose
  contents the contracts speak of through `header_map_entries`;
- `conn`: the connection builder, the login request and the settings of the
  connection's clients;
- `model`: the input configurations (url paths, query strings, headers,
  builders) and the output models of the collection, database, document,
  graph and cursor endpoints;
- `response`: which status of an answer is a success and which error each
  other status stands for, and how the elements of a batch answer are
  sorted into results and errors;
- `error`, `job`: the errors with their messages, and the jobs of
  asynchronous requests.

Each public function states its result in its `ensures`; the `lemma_*`
proof functions state the properties that span several functions.

`app/` performs the requests with `reqwest` and reads the JSON bodies with
`serde`: the `Connection`, its login, and one trait per part of the HTTP
API. `app/model` holds the wire forms of the library's models, with `From`
both ways; the wire forms of the overwrite mode, the collection kind and the
collection status read and write the names and numbers that the library's
`as_str`/`from_name` and `code`/`from_code` give.

`tests/` runs the library on concrete values.
