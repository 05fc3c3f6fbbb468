# smart_keyword

A verified core for a desktop helper that switches the keyboard input mode
(Chinese or English) when the focus moves to another application, using manual
rules, preferences learned from how the user types, and guesses from the kind
of application.

## Layout

- `src/` — the library, verified with Verus.
  - `text.rs` — trimming, ASCII case folding, substring search, name order,
    decimal rendering.
  - `models.rs` — input modes, focused applications, rules, learned
    preferences, settings, decisions, the activity log.
  - `decision.rs` — the guess from the kind of application and the texts that
    explain decisions.
  - `platform.rs` — platform capabilities and how a Windows keyboard layout and
    IME state map to a mode.
  - `registry.rs` — rules and preferences held as keyed lists.
  - `steps.rs` — what each operation does, stated over the abstract state.
  - `service.rs` — the switcher itself. Operations that need the platform or
    the settings file return a `Request`; the caller carries it out and hands
    the outcome back with `resume`.
  - `laws.rs` — properties that hold across operations.
- `tests/` — tests of the library.
- `app/` — the desktop application around it: the settings file, the platform
  adapters, the loop that carries out requests, and the user-interface commands.

The confidence threshold is held in millionths, so that the decision whether
a learned preference is confident enough is exact integer arithmetic.
