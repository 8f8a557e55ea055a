# clippy_land

A clipboard history applet for the COSMIC panel. The verified library under
`src/` holds the applet's logic with Verus contracts:

- `history`: the history list (newest first, pinned items in front, at most
  5 pins and 30 items), recording new clipboard contents, pinning, trimming,
  and which short texts are ignored.
- `app`: the applet state, the events it reacts to and `update`, which gives
  the next state and the action to perform; search filtering, keyboard
  navigation, the one-line summary of a text and the layout decisions of the
  popup.
- `clipboard`: entries and fingerprints, `text/uri-list` parsing with
  percent-decoding, image entries (hash and PNG thumbnail through the `image`
  crate) and the order in which a clipboard read tries images, image files
  and text.
- `path`: the extension of a local file path.
- `text`, `cli`, `ipc`: character helpers, the command line, the toggle
  signal file path.
- `laws`: properties proved across operations (the history invariant is kept
  by every event, navigation round trips, and more).

`app/` is the program around it: the COSMIC widgets and windows, the Wayland
clipboard reads and writes, the toggle signal file, and the scroll offset,
which is computed in floating point.
