# Angry Hub

A desktop window on one's own GitHub pull requests: the open ones with their
CI, approvals and conflicts, and a feed of what others did on them.

The crate is in two parts.

- `src/` is the library, verified with Verus: how GitHub's answers become
  pull requests and activity entries, the session and its tokens, the
  routes and their guards, the navigation history, the local sync of pull
  requests and its watermark, window placement across screens, the theme's
  colors, the menus, the notifications and toasts, and the state of every
  control (menus, tooltips, the segmented control, pull request rows).
  Each public function states its result in its contract; the laws that
  relate several functions are public proof functions named `law_*`.
- `app/` is the program around it: the gpui window and its pages, HTTP
  requests, the keychain, files on disk and self-update. It draws what the
  library decides and hands the library plain values.

`tests/` runs the library on concrete values.
