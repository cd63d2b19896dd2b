# rusty_git_gui

A GTK front end for Git: two lists of changed files (unstaged and staged),
a diff view, and a commit message with commit and amend.

- `src/` is the verified library. It holds the models and decisions of the
  program, each with a contract over mathematical views:
  - `file_changes_store`, `row_ops`, `staged_changes_store`,
    `unstaged_changes_store`, `changes_store_events`: the lists of changes
    and the row edits that keep what a list view shows equal to the list;
  - `repository`, `repository_laws`: reading git status flags into changes,
    the index edits of staging and unstaging, and what each operation reports;
  - `diff_view`, `line_diff`: which diff the diff view shows and when;
  - `text_filter`, `regex_support`: substring and regular expression filters;
  - `dispatch`: the table that routes each event to the parts that handle it;
  - `settings`, `settings_values`: integer settings in an INI document;
  - `text_view`, `decimal`, `tool_bar_stack`,
    `file_changes_view`: font zoom, style sheet text and
    the decisions of the views.
- `app/` is the program around it: Git through `git2`, widgets through `gtk`,
  settings through `rust-ini` and `dirs`.
- `tests/` runs the library on concrete values.
