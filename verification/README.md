# learn_ui

The decisions behind the screens of a flash-card learning app, as a Verus
library: each function states in its contract what it returns, and Verus
proves it.

- `src/` — the verified library:
  - `text`, `numbers`, `order`, `js`: trimming, decimal numbers, string order
    and JavaScript string literals.
  - `scripts`, `editor`, `selection`, `link`, `writing_tools`, `discard`,
    `save`, `tags`, `highlight`, `keyboard`: the card editor (its web-view
    scripts, keyboard shortcuts, which card is open, the link editor, the
    writing tools, the unsaved-changes guard, saving, tags, search
    highlighting and list navigation).
  - `editor_state`: the card editor's whole state and each thing that
    happens to it (picking a card or deck, starting or giving up a new card,
    creating, renaming or resetting a deck, deleting or saving a card, the
    menus and dialogs) as a step from one state to the next.
  - `session`: the practice session screen (timer, focus, keys, labels).
  - `settings`, `deck_form`, `general_settings`: the settings forms.
  - `home`, `history`, `practice`: the home page lists, the history filter
    and the practice page texts.
  - `platform`: opening links.
- `tests/` — tests of the library.
- `app/` — the desktop shell: runs the scripts in the web view, reads
  keyboard events, opens links and handles the two floating-point settings.
