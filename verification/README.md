# RustyRoom

A chat system: an asynchronous TCP server with SQLite storage, a terminal
client and a command-line client, and UDP voice chat.

The decisions of the system are a verified library (`src/`), proved with
Verus against `requires`/`ensures` contracts:

- `resc`, `protocol`, `core_types`: the message types of the guild protocol
  (servers, channels, voice) and of the room protocol, accounts, channels and
  their passwords.
- `server`: what the server answers to each request (registration, login,
  joining servers and channels, channel history, member lists), password
  hashing with SHA-256.
- `tables`: the server's tables of users, connections and voice tokens.
- `voice`, `jitter`, `voice_room`, `voice_server`, `voice_listener`,
  `voice_client`: the voice packet format, the jitter buffer, voice rooms,
  session handling and relaying of voice datagrams.
- `tui_state`: the terminal client's state and what each key and each server
  message does to it.
- `cli`: the command-line client's commands and what it prints.
- `audio`: device naming and ordering, and the frame collector.
- `text`, `bytes_be`, `net`, `clock`: text, byte and address helpers.
- `laws`: properties that span several operations.

`app/` holds the rest: the program's entry point, the network and database
I/O, the terminal drawing, the audio streams and the codec.
