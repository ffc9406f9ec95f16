# Phantom

Phantom is an AI-native screen recorder. This crate holds its decision logic as a
Verus library whose functions carry `requires`/`ensures` contracts proved by Verus,
and a thin command-line program around it.

## Layout

- `src/` — the verified library (`phantom`):
  - `billing/` — tiers, the daily AI quota and offline grace of entitlements,
    the paywall, and the Stripe request shapes.
  - `ai/` — routing of AI requests by tier, the Gemini request plans and retry
    schedule, the on-device fallback summary, auto-edit suggestions (silences,
    filler words, highlight reels), video Q&A timestamp hints, the live
    assistant's rolling transcript and history, transcription command lines.
  - `ui/` — editor timeline (trim, chapters, captions, export ranges), export
    and player command lines, overlay and dashboard state, panel labels, the
    share panel and the QR code of its links.
  - `pipeline/` — capture configuration, input-event classification and the
    encoder's state machine.
  - `storage/` — session file layout, tag encoding and the recording row format.
  - `uplink/` — share links and password hashes, Supabase and team endpoints,
    and update decisions from a release manifest.
  - `voice.rs`, `text.rs` — voice command phrases, and text helpers with their
    specifications.
- `tests/` — tests run against the compiled library with the real outside crates.
- `app/` — the program: command-line parsing, HTTP, SQLite, files, ffmpeg and
  Whisper processes, and the floating-point parts (audio levels, embeddings and
  ranking).

Calls into outside crates (chrono, regex, serde_json, sha2, hex, uuid, semver,
qrcodegen)
that the library's logic depends on go through small trusted wrappers whose
contracts state what the crate documents; everything above them is proved.
