# rpc_gui

A desktop editor for a Discord "rich presence" activity, with its logic
verified by Verus.

- `src/client_id.rs`: which application ids are accepted (18 bytes that read
  as an unsigned 64-bit decimal number), with a verified decimal reader.
- `src/presence.rs`: the activity being edited, the activity published from
  it, and the check of its two link buttons (URLs are checked by the `url`
  crate).
- `src/editor.rs`: the editor's state and the rule that answers each message
  of the window with the next state and the outside work to do
  (notifications, connecting, publishing, disconnecting).
- `src/laws.rs`: properties that span several messages.
- `src/styles.rs`: the widgets' style sheets, with colours and lengths in
  whole thousandths.
- `app/`: the window (iced), desktop notifications (notify-rust) and the
  connection to Discord (discord-rich-presence), driving the library.
