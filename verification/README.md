# pokespeare

Given a Pokémon's name, the service answers with its Shakespearean description.

- `src/` is the verified library: reading a Pokédex species entry
  (`external_api::pokemon`), reading a translation reply
  (`external_api::shakespeare`), the stored row (`storage::db`), and the flow
  of one request with its errors and their HTTP answers
  (`routes::pokemon_description`).
- `app/` is the HTTP service around it: actix-web routes, the calls to the
  Pokédex and the translation service with reqwest, and Postgres with sqlx.
  It carries out the actions that the library's flow asks for and hands back
  what came of them.
