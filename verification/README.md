# varnish

Tools to write Varnish modules (VMODs) in Rust, with their logic proved by Verus.

- `src/` is the verified library:
  - `types`, `parser`, `parser_args`, `docs`, `errors`, `model`: a model of the user's
    `#[vmod]` module and the checks that turn it into the description of a VMOD;
  - `names`, `gen_func`, `gen_objects`, `generator`, `json`, `json_text`: the generated FFI
    module and the JSON description Varnish loads, as text; `fingerprint`: the canonical
    encoding of the model that the file id hashes;
  - `stats`: the metadata of `#[derive(Stats)]` structs;
  - `ws`, `http`, `vpriv`, `vsc`, `processor`, `backend`, `ctx`, `error`, `probe`: the runtime
    side: the task workspace, HTTP header tables, per-task storage, statistics sets, the codes of
    delivery and fetch processors, backend responses.
- `app/` holds the macro front end: it reads the user's code with `syn`, builds the library's
  model of it, and turns what the library computes back into tokens.
- `tests/` runs the library on concrete values.
