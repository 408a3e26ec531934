# cmux on Linux

A terminal multiplexer for the Linux desktop: windows hold workspaces, workspaces hold panes, panes
hold tabs, and each tab runs a shell. A socket takes requests in JSON, one a line, so that scripts
can do what the keyboard does.

`src/` is the library: everything that is decided or computed, with contracts that Verus proves.
`app/` is the program around it: the GTK widgets, the VTE terminals, the socket, the session file and
the settings file. `tests/` runs the library.

## The library

| Modules | What they hold |
| --- | --- |
| `text`, `ids`, `json`, `encoding` | text, identifiers, JSON values, base64 |
| `doubles` | numbers in double precision, calculated on their bits |
| `layout` | how panes share the area of a workspace, and which pane lies in a direction |
| `surface`, `workspace`, `workspace_ops` | tabs, panes and workspaces |
| `state`, `state_focus`, `state_windows`, `state_surfaces`, `state_text` | the whole state and what can be done with it |
| `snapshot` | what is kept of a session, and what becomes of it |
| `registry`, `model`, `terminal` | short names, the model that requests work on, text on its way to a terminal |
| `palette`, `palette_search`, `palette_rows`, `shortcuts` | the command palette |
| `reply`, `params`, `keys`, `methods`, `capabilities` | parts of the protocol |
| `answer_*`, `dispatch` | the answer to each request |
| `actions`, `display`, `host`, `config`, `watch` | what the program around the library asks it |
| `sound_*` | what every operation keeps: a state that hangs together |
| `laws_*` | what holds between operations and between requests |

Each type with contents has a view, a ghost value made of sequences and plain values, and each
operation is stated as a function on views. A state is `sound` if its windows, workspaces, panes and
tabs name each other rightly; `laws_dispatch` shows that every request keeps it so.

New identifiers are random. An operation that needs some comes in two forms: one takes them as an
argument, and its contract is exact; the other draws them, and says that the result is that of the
first for identifiers that are not nil.

## What is not proved

The contracts of a few functions of `uuid`, `base64` and the standard library are taken on trust;
they stand in `ids`, `encoding`, `palette_search` and `text`, marked `external_body` or written as
`assume_specification`, each with a comment that says what is claimed. Nothing in `app/` is verified.
