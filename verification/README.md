# comfyui-openai-api

The core of a proxy that serves OpenAI style image and video generation from a ComfyUI backend,
written in Rust and verified with Verus.

A client posts a request that names a workflow as its `model`. The proxy puts the request's prompt,
seed, size and number of images into the nodes of that workflow, submits it to the backend, waits
until the job is done, and answers with the files that the job produced, in base64.

- `src/` is the verified library. It decides everything: which parameters go into which node, what
  is sent to the backend, when a job counts as finished, which files belong to it, how a lost
  WebSocket is restored, and what the client is answered. What it decides is stated in contracts,
  and what holds of it as a whole is stated in public proof functions beside them.
- `app/` is ordinary Rust around it: HTTP, the WebSocket, the file system and the clock. It does
  what the library asks for and tells it what came of it.
- `tests/` runs the library on concrete values.

| Module | What it is about |
| --- | --- |
| `json`, `codec` | JSON values, and the border to `serde_json` |
| `text` | the order of keys, letter case, numerals |
| `workflows` | loading the workflows of a folder |
| `nodes`, `payload` | from a request to the prompt that the backend runs |
| `headers`, `generation` | the request that the backend gets |
| `ws`, `jobs` | the WebSocket, its listener, and waiting for a job |
| `queue`, `assets` | what the backend says of a job, and the files of a job |
| `encoding` | queries of addresses, and base64 |
| `job` | a job from its submission to the answer |

The library believes a few outside functions without proof. Each of them has a doc comment that
says what is believed: the parser and the writer of `serde_json`, the encoders of `base64` and
`serde_urlencoded`, the random numbers of `rand`, and six functions on text of the standard
library.
