# telegram_mcp_rs

A Model Context Protocol (MCP) server that lets an AI agent act as a Telegram
client: messaging, media, contacts, chats, folders, bots and group
administration, offered as JSON-RPC tools over stdio or HTTP with server-sent
events.

## Layout

- `src/` is the library, written in Verus and verified. It holds what the
  server decides:
  - `dispatcher`: the answer to each JSON-RPC request, as a step function
    (what to ask of Telegram next, and the response once it has answered);
  - `tools/`: each tool's name, description and input schema, how it reads
    its arguments into a request, and the text it answers with;
  - `registry`: the tools by name, with unique names;
  - `path_guard`: which files the tools may read and write, only under the
    allowed roots;
  - `telegram/`: the API requests planned for administration and chat
    changes, how peers are addressed by id, and how answers are read;
  - `json`, `protocol`, `text`, `config`, `error`: the values that these
    work on.
- `app/` is the program around it: command-line arguments, the Telegram
  client, the session file, file access and the two transports.
- `tests/` exercises the library on concrete values.

## Use

Set `TELEGRAM_API_ID` and `TELEGRAM_API_HASH` (and optionally
`TELEGRAM_SESSION_FILE`), sign in once with `--login`, then run the server with
the directories that tools may use as positional arguments. Without any such
directory every file path is refused.
