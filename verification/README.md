# herdr_file_viewer (preview core)

The preview values of a terminal file viewer and the controller state around its one pinned
preview, written in Verus and verified.

- `preview`: the captured origin of a preview (root, branch, absolute and root-relative path),
  its file identity, presentation facts, the frozen display-ready document, and the per-preview
  interaction state (scroll offsets, viewport, in-file search).
- `controller`: what the active preview shows, keyboard focus, the last action notice, and the
  pin lifecycle: pinning clones the settled active document, pinning the same file again removes
  the pin, anything else is rejected with a notice. `controller::viewport` measures how many rows
  content takes and clamps scroll offsets to a viewport.
- `presenter`, `infile`, `search`, `view_policy`: the small value types these share.
- `display_text` and `paths`: the points where the library relies on ratatui (styled text, line
  widths) and on `std::path::Path` (component-wise path equality).

Paths are captured as text; two captured paths name the same location when `Path` equality
holds between them.
