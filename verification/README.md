# music_bot

A Discord music bot whose decisions are verified with Verus.

- `src/` is the verified library: what each slash command answers, how a
  track is described (`[**title**](url) - mm:ss`), how select-menu labels are
  cut to Discord's 100-byte limit, which voice channel a command acts on, and
  the steps of joining a channel.
  - `utils/decimal.rs`, `utils/text.rs`: number rendering and UTF-8 cutting.
  - `utils/replies.rs`: the reply model (embed, colour, footer, select menu).
  - `utils/musics.rs`: tracks, errors, voice-channel checks.
  - `commands/`: the decisions of `/now_playing`, `/play`, `/queue`,
    `/skip` and `/stop`.
- `app/` runs the bot with poise, serenity and songbird: it reads the Discord
  state, performs the voice operations, and sends the replies that the
  library computes.
