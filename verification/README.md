# infer

The host side of an LLM inference server for DeepSeek V4: metrics, checkpoint
loading, scheduling contracts, and the plans of every forward step.

- `src/` is the library, verified with Verus. Kernels never run here: each
  function takes shapes and plain values and returns a plan, the new state of
  the caches, or the reason why a step is refused.
  - `double` computes on exact binary fractions the way the hardware does, and
    `order` shows that rounding, quotients, products and ceilings keep the order.
  - `metrics/` holds the server's counters, gauges and histograms and renders
    them as Prometheus text, as a one-line summary and as a JSON document. `laws`
    states what holds over whole runs, `lines` and `catalogue` that the text
    states the type of every metric once.
  - `model/` holds batches, generation states and paged prefill.
  - `model/deepseek/` holds the model: tensors and their quantization
    (`tensor`, `quant`, `load`, `loaders`, `checkpoint`), buffers (`scratch`,
    `state`, `batch_decode`), experts (`mlp`, `routed`, `grouped`, `dispatch`,
    `flow`), attention (`attention`, `mla`), hyper-connections (`hyper`), whole
    layers and passes (`layer`, `weights`, `pass`, `prefill`, `forward`), and
    the parts of the host's reference executor (`store`, `json`, `reference`,
    `ranking`).
- `tests/` runs the library on concrete values.
- `app/` is ordinary Rust: shared metrics, files, environment variables, the
  device, and floating-point execution on the host.

Numbers in floating point appear in the library as bits or as exact binary
fractions; durations are whole microseconds.
