# gswr

A terminal branch switcher for Git with GitHub pull-request status shown
inline. The logic is a library verified with Verus; a thin front end runs
it in the terminal.

- `src/branch.rs`: branch records, main-line names, deletion rules, and
  the listing order (checked-out branch first, then newest commit; a
  stable sort).
- `src/remote.rs`: owner and repository read from a GitHub remote URL.
- `src/app.rs`: the switcher state: selection, key handling, sync
  selection, pull-request updates.
- `src/github.rs`: turning API pull requests into branch updates.
- `src/ui.rs`: column widths, cell texts and footer contents of the table.
- `src/laws.rs`: properties that relate several operations.
- `src/text.rs`: character-sequence helpers.
- `app/main.rs`: Git access, HTTP, terminal input and drawing.
