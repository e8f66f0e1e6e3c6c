# island_core

The logic of IslandCore, a Dynamic-Island-style bar for Windows, as a library
verified with Verus, and the program around it.

- `src/` — the verified library. Each module states what its functions return
  in `requires` / `ensures` over spec functions, and proves it:
  - `events`: the system-event queue (highest priority first, earliest among
    equals; the rest kept in the order queued, with only the newest volume
    change, WeChat hint and toast);
  - `media`: choosing among media sessions, player window titles, the accent
    colour of a cover;
  - `notifications`, `wechat`: application toasts (each reported once) and
    WeChat's windows (with a debounce);
  - `chrome`, `ide`: following Chrome and Cursor / VS Code in the foreground;
  - `sensor`: the decisions of the 100 ms sensor loop; clock readings are
    taken by thin wrappers, and each time window, a number of milliseconds
    held by the library, is compared with the elapsed time by verified code;
  - `album_art`, `netease`, `json`: cover look-ups as sessions of requests,
    with the fetchers that plugins register asked last;
  - `system`, `devices`, `battery`, `bookmarks`, `cli`: key input, device
    settings, the island window, bookmarks and shell tasks;
  - `text`, `fmt`, `encoding`, `clock`: strings, number formatting, and the
    calls into `urlencoding`, `base64` and std behind small trusted wrappers.
- `tests/` — tests of the library on concrete values.
- `app/` — the Tauri program: Windows APIs, HTTP, SQLite, WMI and the
  webview, calling the library for every decision.
