# tracker_core

Verified core of a two-phone tennis capture rig, written in Verus.

`src/` is the verified library:

- `device` — the device tier rule.
- `link` — link-layer sequencing, delivery modes and duplicate suppression
  over a bounded window of recently seen sequence numbers.
- `clock` — bookkeeping of outstanding synchronisation pings and of the link
  state seen by the synchronisation session; the sliding sample window.
- `remote` — remote-control commands and mark tags.
- `session` — capture profiles and roles, match setup (validation, player
  lookup, court ends), the recorder state machine, and the manifest check.
- `text` — exact string comparison and decimal formatting used by the above.

`app/` wraps the library for the platforms: the JSON wire and manifest
formats, the floating-point clock model and estimator, motion detection, the
recorder's camera and probe calls, and the facade used by the apps.
