# hecto

A small terminal text editor whose core is verified with Verus.

- `src/` is the library: lines of grapheme clusters (`line`), the document
  (`buffer`), the caret and scrolling logic (`view`), key events and the
  commands they give (`input`, `command`, `editorcommand`), the status and
  message bars (`documentstatus`, `messagebar`), the editor's decisions
  (`editor`: quitting, saving, titles, what to draw) and the choice of East
  Asian widths (`cjk`).  Calls into `unicode-segmentation`, `unicode-width`
  and `std` go through the small trusted wrappers in `unicode`, `fileinfo`
  and `messagebar`.
- `app/` is the program: a raw byte echo on standard input, and, with
  `--edit [file]`, the terminal front end of the editor built on `crossterm`
  (terminal output, reading events and files, writing files).
- `tests/` exercises the library on concrete inputs.
