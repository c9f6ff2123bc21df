# rapidraw_agent

The logic behind RapidRAW's agent interface, verified with Verus. An agent works
side by side with a human on the same image: it loads, previews, adjusts, masks
and exports through a control server on the local machine.

- `src/` is the library. Every function has a contract that Verus proves, but for
  trusted items, whose doc comments say what is taken on trust. They are the calls
  into `serde_json` (documents, objects, numbers, reading and writing text), `dirs`
  (the user's directories), `uuid` (random ids) and `reqwest` (the name of an HTTP
  status), and those into std: joining paths, lower case, and reading and printing
  floating-point numbers.
- `app/` is the program around it: the command line, the HTTP client, and the HTTP
  server over a host that owns the images.
- `tests/` runs the library on concrete values.

Three promises that the library proves of the whole:

- A patch changes only what it names. Every other edit, the human's included, shows
  in the state afterwards as it did before (`session::adjust_keeps_other_edits`,
  `command::unset_flags_keep_edits`).
- What an agent sets, it reads back (`session::adjust_shows_patch`,
  `command::adjusted_flag_shows`).
- Adjust first, and a preview or an export that brings no adjustments shows the
  change (`preview::preview_shows_adjust`, `preview::export_shows_adjust`,
  `command::adjusted_flag_is_rendered`).
