# git_sre_agents

A team of LLM agents that work on Kubernetes manifests in their own git
repositories: a request analyzer hands the human's request to a worker, the
worker reads, rewrites and commits a manifest and reports to a pull-request
agent, which reports to the main agent that merges the work.

- `src/` is the verified library (Verus). `core_engine` builds the agents,
  prompts, schemas, tools, model settings and payloads, and decides each round
  of the tool-calling loops; `core_logic` holds the nodes' decisions, the git
  command lines, the dispatcher's routing and the prompts and schemas of the
  nodes; `json`, `keyed` and `text` are the value models they rest on; `laws`
  states what holds across operations.
- `app/` is the program: it calls the model's API, runs the tools and git
  commands, and drives the dispatcher and the nodes with the library's steps.
- `tests/` runs the library on concrete values.
