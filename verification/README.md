# Screen Crab

Screen Crab takes pictures and videos of the screen, on macOS with
`screencapture`, and on Linux and Windows with ffmpeg.

`src/` is the verified library, checked with Verus. It holds what the
application decides:

- `response`: the answer of every command, a message or an error text;
- `flow`: the steps after a capture or a recording ends (open the file, copy it
  to the clipboard, remove it) and the answer each outcome gets;
- `commands`: the command lines of `screencapture`, of ffmpeg on X11 and with
  gdigrab, and of the helper processes;
- `request`: how a capture request is read: its mode, the file it writes, and
  the notification at the end;
- `area`, `parse`, `text`: reading areas and numbers, writing numbers;
- `keys`: reading shortcuts such as `CmdOrCtrl+Option+C` and the shortcut file;
- `menu`, `layout`, `settings`: the menu bar, and the settings that its items
  and the global shortcuts switch;
- `paths`, `hotkeys`, `monitors`, `formats`: default locations, the
  application's own files, displays, and video formats.

`app/` is the Tauri application around it: windows, dialogs, processes and
files. `tests/` runs the library on concrete values.
