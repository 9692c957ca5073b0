# xero_core

The verified core of the Xero desktop workbench: the rules, state machines,
parsers and text formats behind its Solana tools, autonomous runs, workflow
handoffs, provider profiles and session transcripts. Every function in `src/`
is checked by Verus against a contract stated over mathematical models.

## Layout

- `src/` — the library, one module per concern:
  - `drift`, `cluster`, `secrets`, `ledger`, `codec`, `wallet_adapter` —
    Solana program drift, persona scope checks, cost ledger, byte codecs,
    wallet-adapter scaffolding.
  - `autonomous`, `autonomous_rules`, `autonomous_history`,
    `autonomous_rollover` — autonomous-run records, their validation, unit
    history and the rollover decisions of an upsert.
  - `workflow`, `handoff`, `dispatch`, `dispatch_outcome`, `dispatch_step` —
    workflow graphs, handoff packages and automatic dispatch, the latter as a
    step function from database answer to next action.
  - `provider_profiles`, `anthropic`, `runtime_session`, `browser_settings` —
    provider credentials, runtime sessions and browser control settings.
  - `session_history`, `transcript`, `commit_message`, `redaction` — transcript
    export and search text, commit-message tooling, secret redaction.
  - `screenshot`, `avd`, `emulator`, `backend_jobs` — webview screenshots,
    Android virtual devices, emulator stubs and the background-job registry.
- `tests/` — tests over concrete values, run against the real outside crates.
- `app/` — the command-line program around the library: file I/O, JSON, and
  the calls that only a running desktop can make.

Calls into outside crates (`base64`, `bs58`, `sha2`, `time`, `url`,
`serde_json`, `image`) sit behind small trusted wrappers whose contracts name
what the call returns; everything around them is verified.
