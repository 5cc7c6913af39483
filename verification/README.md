# dd2_height_alarm

A watch over the live heights of climbers in a tower-climbing game: it
fetches the live heights and the leaderboard, draws every climber beside a
floor scale, and sounds an announcement when a watched climber reaches a new
floor above a chosen one.

- `src/` is the library, every function proved against its contract: the floor table and the floor of a
  height (`floors`), exact comparisons of `f32` bit patterns against whole
  metres (`float_bits`), reading feed entries and keeping the recent
  snapshots (`players`), the alarm state of each climber and the alarm watch
  over a player list (`players`, `live`), the clips that announce a climb
  (`play_sound`) and the settings and refresh timing (`settings`).
- `app/` is the program around it: the window and drawing (egui/eframe),
  the HTTP requests and JSON reading (reqwest, serde_json), the sound output
  (cpal, rodio), threads and the clock.
- `tests/` runs the library on concrete values.

Heights, colours and positions cross into the library as `f32::to_bits`
patterns; the program converts them back for drawing.
