# app_ui

The state logic of a desktop file browser, written in Verus and proved
against its contracts: what the browser's commands do to its state, which
file operations they queue, and what they ask of the outside world.

The library never touches the file system, the window system or the network
itself. Where a command needs something from outside (a directory listing,
whether a name is taken, the host name, the clock), the value is an argument;
where it wants something done (open a window, read the clipboard, start a
transfer), it returns an effect for the application to perform.

## Layout

- `src/` — the verified library, one module per concern:
  - `paths`, `text`, `naming`: path arithmetic and the naming rules for
    extraction folders, duplicates and new folders;
  - `config`, `app_config`: stored preference values, view densities and
    the application configuration document;
  - `browser`, `panes`, `selection`, `clipboard`, `conflict`, `operations`:
    the browser state, its panes, copy/cut/paste, drag and drop, and transfer
    conflicts;
  - `view_modes`, `view_switch`, `metadata_demand`: the list view's
    expanded directories, switching between views and metadata requests;
  - `entry_changes`, `entry_change_application`: incremental listing
    updates from the file watcher and finished operations, applied to every
    pane that shows the directory (the display order comes from the caller's
    sort);
  - `advanced_new_folder`, `archive_member_password`, `archive_extraction`:
    dialogs and archive commands;
  - `transfer`, `windows`, `floating_input`: local network transfer
    sessions, windows and focus, and dismissing floating surfaces.
- `tests/` — tests that run the library on concrete values.
- `app/` — the edge: reading and writing the configuration file, and
  platform lookups.

Each module states its laws (properties across calls) as public proof
functions next to the operations they are about. The browser's collections
keyed by path (expanded directories, selections) hold each path once:
`FileBrowser::new` establishes this and every command on the browser keeps
it (`FileBrowser::collections_well_formed`).

## Left to the user interface

Screen geometry is computed in floating point and stays with the user
interface: which rows and icon cells a viewport shows, pulling scroll
offsets back inside content that shrank, scrolling an entry into view, and
placing floating panels. The library takes its results as arguments (for
instance the rows on screen, in `metadata_demand::group_visible_entries`).
