# dsh_clients

Clients for the DSH platform: fetching MQTT tokens (through a REST token),
connecting to the MQTT brokers, and the tenant resource management REST API.

The library under `src/` is written in Verus, and Verus proves each of its
functions against its contract. The MQTT client keeps the plain settings that
its rumqttc client was built from, and its contract states those settings:

- `config` — the token endpoints of each environment.
- `error` — the error type and its messages.
- `model` — tokens and token requests; framing a raw token into its payload.
- `authentication_client` — the REST token cache, the validity of a token,
  the hashed client id, and how the answer of a token server is read.
- `stream_client` — the MQTT broker of each environment and the connection
  options.
- `request` — the URL of a REST API request and how its status is read.
- `types`, `models` — the data model of the REST API, with the wire names of
  its enumerations.
- `text` — string helpers and their lemmas.

`app/` holds what performs I/O around the library: the HTTP calls, the serde
forms of the types, the system's root certificates, and the REST API client.
`tests/` exercises the library on concrete values.
