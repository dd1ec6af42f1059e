# juicebox-plus

A system-tray client for juicebox: it pairs the desktop with a juicebox
account, keeps a device WebSocket open, and uploads files through the local
juicepipe daemon or straight to juicehost.

- `src/` is the verified library (Verus): the tray's state machine and the
  effects it asks for, the settings, the upload protocol's requests and the
  reading of every reply, the device socket's decisions (reconnect delays,
  answers to server messages), pairing, the connectivity report, firewall
  detection from the tools' output, and the menu's content. Laws about them
  are public proof functions named `law_*`.
- `app/` is the program around it: the event loop, the tray icon, dialogs,
  notifications, files, and the network I/O. It hands the library plain
  values and carries out what the library decides.
- `tests/` runs the library on concrete values.
