# nyacat

The logic of NyaCat, a cat-girl chat bot for QQ groups built on `kovi`, as a
library verified with Verus.

- `src/` is the library. Every function there carries a contract that Verus
  proves. It covers command parsing and permissions, the role-play memory
  window, splitting long replies, the moderation counters and invitation
  screening, the automatic emoji reactions, and the configuration each plugin
  reads.
- `app/` is the bot program. It loads the configuration files, talks to the
  chat service and the chat model, and carries out what the library decides.
- `tests/` runs the library on concrete messages and configurations.

The configuration files and commands are those of the bot's user guide:
`chat_config.json`, `command_exec_config.json`, `ban_config.json`,
`emoji_attack_config.json`; `$hi`, `$smart`, `$restart`, `$kill`,
`$mem_kill`, `$shell`, `$monkey`.
