# explorer

Shared logic for the explorers of the `common_game` space simulation, written
in Verus and verified.

- `resource`: resource kinds and the combination recipes.
- `bag`: the explorer's bag of resources and the description of its content.
- `channel`: the crossbeam channel calls the library makes.
- `protocol`: the messages exchanged with the orchestrator and the planet, and
  their conversion to and from `common_game`'s protocol enums.
- `traffic`: the explorer's channel calls, each of which appends what it
  handed to a channel, or took from one, to a ghost record private to that
  module.
- `explorer`: the explorer's state, its responses to the orchestrator and the
  `Explorer` trait built on them. Each response is specified for every
  behaviour of its peers, and its contract says that the messages it reports
  are exactly those the traffic record gained during the call.
- `logged_channel`: a channel pair that logs every message event; each call
  returns, as ghost data, the events it logged.

`tests/` exercises the library against real channels and `common_game` planets.
