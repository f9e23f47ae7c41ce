# ign

The verified core of `ign`, a command-line manager for `.gitignore` files built from
the official github/gitignore template collection.

- `src/` is the library, verified with Verus: template names and categories, smart
  aliases, normalization, the sorted listing of a scanned collection, fuzzy search and
  template resolution, the decisions of cloning and updating the collection with git,
  the interactive menu's entries, and the filters and checks of the subcommands.
  `src/laws.rs` states and proves the properties that hold across these operations.
- `app/` is the `ign` program: argument parsing, walking the collection on disk,
  running git, prompting, and printing.
- `tests/` runs the library on concrete values.

The managed block layout of a `.gitignore` file (the `BEGIN`/`END` template blocks and
the custom-rules block) is not part of this crate. So `ign init`, `ign add`,
`ign remove` and `ign status` stop with an error after resolving their templates.
Listing, searching, showing templates, and fetching or updating the collection work.
