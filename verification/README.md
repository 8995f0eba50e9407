# litellm

The error model and provider-call decisions of an LLM gateway core,
verified with Verus.

- `src/error.rs`: errors split by phase (preparation or execution), bounded
  messages, and the hand-over of an error to execution.
- `src/gateway/`: the status and message a host answers a failed request
  with.
- `src/python_bridge.rs`: the exception class and attributes the Python
  host raises for an error.
- `src/ocr/`: OCR payloads, parameter selection, credential selection,
  header maps, and the step-by-step decisions of an OCR provider call.
- `src/messages.rs`, `src/audio_transcription.rs`: the decisions of
  messages calls and the two phases of a transcription.
- `src/outside/`: the declarations of the `reqwest`, `axum` and
  `serde_json` items the library calls, with their trusted contracts.
- `app/`: what runs around the library: the HTTP answer, the Python
  exceptions, the copies of types with `serde` and `thiserror` derives, and
  the loops that send requests and feed each outcome back to the library.
