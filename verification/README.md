# glommactor

An actor framework with supervision. Actors take events from channels and are reached through
handles, also from other cores. A supervisor keeps a line to each actor in its care: it hands out
identifiers, starts, stops and shuts actors down, asks for their states and checks their heartbeats.

The library under `src/` is written in Verus and decides everything: what is sent to whom, what is
answered, which identifier is free, what follows from each outcome. It never waits. Where something
has to be waited for, one function says what for and another takes what came of it. The crate under
`app/` runs it on the glommio runtime.

- `actor`, `priority`: what an actor is, its states and the priorities of events
- `channel`: channels, deliveries to them, and the record of what a supervisor sent
- `handle`: handles to actors
- `supervisor`, `supervisor_handle`: the supervisor, its event loop and the handle to it
- `supervision`, `recovery`: heartbeat passes over all actors, and what runs where one fails
- `error`, `text`: errors and their texts
- `task`: the developer tasks
- `laws`: what holds beyond single calls, such as that no two actors in use share an identifier
