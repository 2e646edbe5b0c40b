# Ribbon

Ribbon is a Discord bot that gives server members Discord roles according to their
Roblox accounts, with a web dashboard where server managers set up the rules
("member links").

- `src/` is the verified library (Verus): role changes and how they apply, member-link
  criteria, the sync operation as a state machine, command routing and registration
  text, the frontend's error answers and permission checks, session signatures,
  Roblox membership paths, tokens, the read-through indexes of the caches, and the
  messages and pages the bot writes.
- `app/` is the program around it: the Discord gateway and HTTP clients, the caches,
  the database, the web server, and the loop that drives each sync operation.
- `tests/` runs the library on concrete values.
