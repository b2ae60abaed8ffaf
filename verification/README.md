# web_api

A small JSON web API on iron. The library (`src/`, verified with Verus) holds
the decisions: the route table (`api::Router`, keyed by method and path), the
user routes (`api::controllers`), validation of request bodies and the error
responses (`api::transport`), the authentication screen
(`api::middlewares::wrappers::auth`) and sessions (`api::middlewares::sessions`).
The program in `app/` wires them into an iron server: request reading, the
middleware chain, Redis sessions, the database pool and logging.
