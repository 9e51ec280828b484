# sone

The decision logic of a desktop TIDAL player, verified with Verus.

`src/` is the library: which stream is asked for and where it is played from, who is
signed in and what is kept of it, which plays are reported to TIDAL and how a report is
carried to its end, which scrobbling services and speakers are used. Every function
states in its contract what it returns or changes; laws that span several functions are
public proof functions named `law_..`.

- `tidal_report`: listening time and the report of a play (`session`), the playback
  lifecycle and the sending of reports (`reporter`), the event itself (`event`), the
  outbox of reports that failed (`queue`).
- `commands`: signing in (`auth`, `token_data`), streams (`playback`), media controls,
  windows and keys (`desktop`), scrobbling (`scrobble`), speakers (`sonos`).
- `settings`, `defaults`, `state`: what is kept between runs, and how a run starts.
- `sonos`: the speaker's queue and its mirror.
- `text`, `lists`, `encoding`, `json`, `random`, `clock`, `error`: what the rest is
  built on.

Numbers with a fraction are held as the bits of floating-point numbers, times as whole
nanoseconds or milliseconds. What the library takes on trust from other crates are the
functions marked `external_body`; each says what it claims.

`app/` performs what the library decides: files, network, the audio pipeline, windows,
speakers. The parts of the player that it drives stand behind the traits of
`app/ports.rs`.
