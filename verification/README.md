# codex_models

The model listings of a Codex endpoint, verified with Verus.

- `src/provider_models.rs`: reads the model list a provider sends back
  (OpenAI-style `data` entries first, else `models` entries), trimming ids
  and dropping blank or repeated ones.
- `src/endpoint.rs`: the models path, the `client_version` query, and the
  order in which a provider's list is asked for (models path, then root).
- `src/header.rs`: the entity tag of a models response.
- `src/catalog.rs`: the app server's catalogue of presets and providers'
  models.
- `src/json.rs`, `src/text.rs`: JSON documents as plain values, and text
  helpers; the calls into `serde_json` and `std` stand behind trusted items
  whose contracts are stated there.
- `app/`: the asynchronous edge (sending requests, fetching presets).
