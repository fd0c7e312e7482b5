# voice_vibe_local

The verified core of a local-first desktop app for recording meetings, transcribing
them with a bundled speech-recognition runtime, summarising them with a chat-completions
model, asking questions about local notes, and dictating into other applications.

Everything in `src/` is written in Verus and proved against its contracts: the rules
for recordings and their ids, the local transcription and summary queues and their step
pipelines, the preparation of the speech models, the requests sent to and the replies
read from the Python sidecar and the speech worker, long-text splitting and summary
merging, the notes assistant's checks and Markdown notes, the dictation paste box and
its deliveries, workspace folders and note files, and the application settings. Calls
into `serde_json`, `chrono`, `uuid` and `std::path` are made behind small trusted
wrappers whose contracts only name what those crates return.

`app/` is ordinary Rust around the library: the SQLite database, the credential store,
starting the sidecar process, reading files and Word documents, and the serialisable
copies of the library's types. `tests/` holds the tests, run against the library with
the real outside crates linked.

| module | what it decides |
|---|---|
| `text`, `sorting`, `json_text` | string and line handling, orderings, reading JSON text |
| `workspace`, `note_roots`, `notes` | workspace folders, note files, note roots, imports |
| `recording`, `devices`, `window` | recording ids and modes, device and permission guidance |
| `pipeline`, `queue_jobs`, `transcription_run`, `summary_run`, `summary`, `chunking`, `prompts`, `templates` | queue jobs, their steps, how a transcription or summary job runs, the summary rounds and the template order |
| `models`, `model_status`, `model_preparation`, `auxiliary_models` | where models lie and how they are made ready |
| `runtime`, `sidecar_requests`, `sidecar_output`, `asr_worker` | the sidecar and the reusable speech worker |
| `assistant`, `assistant_replies`, `llm_exchange` | the notes assistant and chat completions |
| `outbox`, `paste_delivery`, `dictation`, `ax_helper`, `voice_stats` | the dictation paste box, its deliveries and the dictation statistics |
| `settings` | the stored settings and their defaults |
