# transcribers

A speech server: speech to text with Whisper and text to speech with Qwen3-TTS, behind an
OpenAI-style HTTP API.

- `src/` is the verified library: configuration and its defaults, the planning of a
  recognition run (silence detection by length, thirty-second chunks with one second of
  overlap), the joining of chunk transcripts, the model names the server reports, the
  transcription and speech endpoints' decisions and errors, the checks before a synthesis
  and the WAV file it is delivered in.
- `app/` holds the program around it: command line, HTTP routes, worker threads, the
  Whisper and Qwen3-TTS calls, and the floating-point steps (loudness, sample conversion,
  sampling settings).
- `tests/` exercises the library.
