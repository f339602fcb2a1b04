# animus-subject-zendesk

Zendesk Support tickets as Animus subjects, with the backend's logic proved in Verus.

`src/` decides everything and sends nothing: it says which request comes next, what a reply
means, how a ticket becomes a subject and what an update writes. `app/` reads the environment,
sends the requests with `reqwest`, and hands the replies back.

| Module | What it holds |
| --- | --- |
| `text` | strings: order, white space, decimal numbers |
| `json` | JSON values, their model, and the calls into `serde_json` |
| `fields` | the custom fields of a subject |
| `url` | percent-encoding |
| `protocol` | subjects, filters, patches, schemas, health, errors |
| `config` | the account, from environment variables |
| `native` | ticket ids, statuses, priorities, timestamps |
| `http` | requests, and what replies mean |
| `ticket` | from a ticket to a subject |
| `filter` | which subjects a filter admits |
| `list` | listing subjects, and getting one |
| `labels`, `update` | what an update writes, and its steps |
| `backend` | schema, watching and health |
| `laws` | what holds of the backend as a whole |

## Configuration

| Env var | Purpose |
| --- | --- |
| `ZENDESK_SUBDOMAIN` | Builds `https://<subdomain>.zendesk.com` when `ZENDESK_BASE_URL` is unset. |
| `ZENDESK_BASE_URL` | Zendesk account URL, for example `https://example.zendesk.com`. |
| `ZENDESK_EMAIL` | Zendesk agent email used with API token authentication. |
| `ZENDESK_API_TOKEN` | Zendesk API token. |
| `ZENDESK_QUERY` | Optional Zendesk search query for listing. |

Subject ids have the shape `zendesk:<ticket-id>`, for example `zendesk:12345`.
