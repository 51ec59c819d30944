# argus

A terminal dashboard that watches CI/CD pipelines on GitHub Actions, GitLab CI
and Jenkins.

- `src/` is the verified core, written in Verus: the pipeline and stage
  models, status mapping for each platform, conversion of API answers into
  pipelines, the pipeline store (merge, ordering, counts, error history),
  keyboard navigation, log-fetch decisions, retry/back-off decisions,
  configuration validation, the content of every dashboard panel, and the
  text and time formatting they need.  Calls into `chrono`, `reqwest` and
  std that the core makes stand behind small trusted functions whose
  contracts are documented where they are declared.
- `app/` is the program around it: configuration files, HTTP requests,
  background polling tasks, the terminal and the event loop.
- `tests/` exercises the library on concrete values.
