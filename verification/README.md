# ttsbot

A Discord text-to-speech bot whose decisions are proved with Verus.

- `src/` is the verified library: which messages are read aloud and the
  steps that reading one takes, the prefix and slash commands' replies and
  steps, the voices and the speech-engine settings they select, the cloud
  speech request and the decoding of its answer, the token-renewal schedule,
  the API's error mapping and OAuth2 redirect steps, the CRUD query
  generators and the product-enum generator, and the text helpers they rest
  on. `src/laws.rs` holds the properties that tie several parts together.
- `tests/` runs the library on concrete values.
- `app/` is the program around it: Discord gateway and HTTP, Postgres,
  Redis, the speech service, files and the Open JTalk command. It performs
  the actions the library's step functions name and reports the outcomes
  back.

Run the bot with `DISCORD_BOT_TOKEN`, `DATABASE_URL`, `REDIS_HOST` and
`GCP_SERVICE_ACCOUNT_CREDENTIAL_FILE` set and the message catalogues under
`./locales`; `create-slash [-g] -i <guild id>` and `delete-slash [-g] -i
<guild id>` manage the slash commands.
