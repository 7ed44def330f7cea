# mindfulness_bell

A menu-bar bell that rings and dims the screen at clock-aligned minutes or at
a fixed interval. The decisions are a Verus-verified library; the window,
tray, audio and settings-store plumbing is an ordinary Rust application.

- `src/aligned.rs`: the wait until the next clock-aligned bell, with its
  laws (it lands on a configured minute and skips none, counts down by one
  per second, and depends only on the set of configured minutes).
- `src/schedule.rs`: the scheduler loop as a step function from phase and
  observation to next phase and action, with its laws (one bell per
  configured time; no bell in clock-aligned mode without configured
  minutes; a superseded scheduler stops; no bell while the bell is off;
  documented settings never overflow and give deadlines of at least a
  second). The step also reports the clock reading it used.
- `src/settings.rs`: the bell settings, their defaults, and how they are
  written to and read back from the settings store (load after save gives
  the saved settings; an empty store gives the defaults).
- `src/bell.rs`: what one bell does (media, overlay, sound), overlay labels
  and pages, the sound to play.
- `src/media.rs`: reading the now-playing query's answer.
- `src/tray.rs`: tray icon, menu commands, exit requests.
- `src/clock.rs`: the local clock reading, through chrono.
- `app/main.rs`: the Tauri application that performs what the library decides.
