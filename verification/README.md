# chat

A small websocket chat: browsers send a name and chat lines, the server
signs each line with the sender's name and broadcasts it to every connected
session.

- `src/` is the verified library (Verus): the message types (`message`), the
  server's session registry, login handling and broadcast rule (`server`),
  a session's handling of websocket frames (`session`), and the browser
  client's decisions (`client`).
- `app/` is the program around it: the actix web server and session actors,
  the JSON wire form of the messages (serde), and the browser glue
  (`web_sys`), all delegating their decisions to the library.
- `tests/` exercises the library on concrete values.
