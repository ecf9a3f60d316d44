# pastebot

A Discord bot that answers messages carrying text attachments with link
buttons to a web paste viewer, together with that viewer's static site and a
small proxy that fetches attachments from Discord's CDN.

- `src/` is the verified library (Verus): the reply planning for new
  messages, the bounded cache of the bot's replies, the decisions taken for
  each gateway event, the proxy's URL and error handling, and the site's route
  table and typed responses.
- `app/` holds the three programs around it (`bot`, `api`, `site`, chosen by
  the first argument): the gateway connection, the HTTP requests and servers.
- `tests/` exercises the library.
