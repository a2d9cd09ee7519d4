# self_media

The verified core of a multi-platform content service: it follows trending
topics, has the MiniMax models write articles, pictures, narration and
videos, adapts the result to each publishing platform, and keeps users'
secrets sealed under their own keys.

Layout:

- `src/` — the library, verified with Verus. Each module states its
  behaviour in `requires`/`ensures` over spec functions; calls into outside
  crates (serde_json, chrono, aes-gcm, argon2, jsonwebtoken, sha2, lru, …)
  sit behind small trusted wrappers whose contracts name what they return.
  - `text`, `pattern`, `json`: text and JSON reading used throughout.
  - `hotspot`: reading each source's response, the model's topic search,
    ranking, per-source request spacing and the list cache.
  - `task`: admission rules, the generation runs of a task (article or
    video) as a state machine, and the adaptation of content per platform.
  - `publish`: publishing runs, rate limiting, QR-code login decisions and
    the request/response shaping of each platform adapter.
  - `crypto`, `store`, `user`, `config`, `records`: keys, sealing,
    password hashing, stored rows and their checks.
  - `web`: the decisions of the HTTP layer (status codes, sessions, CSRF,
    uploads and served files).
- `tests/` — tests of the library's behaviour on concrete values.
- `app/` — a command-line front end that performs the network, file and
  ffmpeg work the library's runs ask for: topic search, task generation,
  publishing an article to a WeChat official account in its two steps
  (adding the draft, then submitting it), and publishing a video to
  Xiaohongshu, Weibo or Bilibili by the runs of `publish::video_runs`.
