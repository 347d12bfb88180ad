# vkoxide

A framework for VK community bots on the Bots Long Poll API, with its core
verified by Verus.

- `src/` is the verified library: the data VK sends (`types`), keyboards and
  callback answers, the filters that route updates (`filters`, `extract`),
  the requests sent to the API and the reading of its answers (`api`), and
  the decisions of the Long Poll loop as a state machine (`dispatcher`):
  when to request a server, what to poll with, how long to back off after a
  failure, when to deliver updates and when to stop.
- `app/` is the asynchronous shell: the HTTP client (`Bot`), the dispatcher
  loop that performs the state machine's actions, the dptree handlers, and
  the serde forms of the library's types.
- `tests/` runs the library on concrete values.
