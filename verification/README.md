# myyy

The core of a small agent front end, verified with Verus.

- `src/` is the verified library: the messages from the terminal
  (`protocol`), the conversation history (`history`), a scripted model
  (`model`), the tool registry with its approval policy (`tools`), the turn
  loop as a state machine (`session`), text helpers (`text`) and the
  properties that span several functions (`laws`).
- `app/` is the program around it: terminal input, channels and tasks on
  tokio, and reading JSON tool arguments with serde_json when a turn asks
  for that. No command runs for real: an approved command gets a simulated
  result from the library.
