# rakuos_welcome

The first-login welcome wizard of RakuOS: a welcome page, three optional setup
tasks (gaming, virtualization, local AI), and a done page. This crate holds its
decisions, proved with Verus; `app/` is the GTK/libadwaita window that uses them.

Layout of `src/`:

- `pages` — the page table: the setup tasks, their scripts, stack names, logos, links.
- `launch` — whether the wizard shows (it runs once unless forced), the force flags,
  where the welcome-done marker and the setup logs live.
- `setup_run` — the result of a setup script and the text it adds to the log.
- `backend` — the property-and-notification model of a QML window, with the state
  a script worker shares with it.
- `wizard` — the message-driven wizard: state, `update`, and what the view shows.
- `stack_wizard` — the page-stack window: page cursor, navigation bar, run buttons,
  and the log area, which only ever grows.

Only the page-stack window has a shell, in `app/`. No window is built around
`backend` or `wizard`; their models are exercised by the tests under `tests/`.
