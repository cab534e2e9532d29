# murder

A game of murder (mafia): players join, are dealt roles, and then the days
go round — a morning in which the town votes whom to lynch, a special night
in which the detective investigates, and a mafia night.

- `src/` is the verified library: players and roles (`player`), the game's
  state and session (`gamesession`, `phase`), one module per phase
  (`selection`, `morning`, `special`, `mafia`), chat channels (`channel`),
  computer players (`ai`, `client`), the wire framing of the server
  (`packet`), how the server answers each request (`packetphase`,
  `server`), the payloads of its replies (`payload`), what the fields of a client's
  payload mean (`message`), the random dealing of roles (`rng`), and the laws that hold
  across these functions (`laws`).
- `tests/` runs the library on concrete games and packets.
- `app/` is the program: the TCP server (the default) and a local game of
  computer players (`client`); the fields of client payloads are read
  there with protobuf's input stream, only where the request applies.
