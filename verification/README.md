# storeprop

The store service of a distributed hash table node, verified with Verus.

A node keeps values in a store, answers searches from it, sends searches on to other nodes, and
gathers the results of the searches that it sent on. `KVStoreService::call` carries out one
command and says what is to be done: answer an api request, forward a command, or nothing.

- `src/` is the library.
  - `service`: the service; `steps`: what each command does, as a relation; `laws`: what holds of
    the service as a whole.
  - `command`, `reply`, `proto`, `global`: what goes in and out, on the node, between its threads
    and over the network; `answer`: the answers that the service sends out.
  - `query`: queries on their way and queries that wait; `cache`: the waiting ones in memory.
  - `keyval`, `rules`: the traits that a node implements; `clock`, `error`.
- `tests/` runs it.
- `app/` holds the thread that runs a service and the serialized form of the messages.

The store and what opens it, the rules, the references and the modes of queries belong to the node that uses the
library. Nothing is assumed of them: a contract says what follows from the answers that they give.
A table of waiting queries has to behave as a map from ids to queries, and to change the ids that
it may give next only when one is drawn; the one in `cache` does.
