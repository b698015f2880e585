# apple-to-last-fm

Scrobbles Apple Music plays to Last.fm (macOS).

- `src/` is the verified library: the scrobble state machine (`state`), the
  signed Last.fm requests (`params`, `scrobbler`), the configuration rules
  (`config`, `auth`), the launchd agent description (`daemon`), the track
  model (`player`), clock readings (`clock`) and text helpers (`text`).
- `app/` is the command-line program around it: Apple Music queries, HTTP,
  files, `launchctl`, terminal prompts and logging.
