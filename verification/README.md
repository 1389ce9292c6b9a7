# xds-channel

The part of an xDS-capable gRPC client that configures a channel, plans how it is
built and routes its requests, written and verified in Verus.

- `src/uri.rs`: the xDS target of a channel.
- `src/bootstrap.rs`: the bootstrap configuration and where it is read from.
- `src/config.rs`: the configuration that a channel is built from.
- `src/error.rs`: what can go wrong in a build.
- `src/instances.rs`: named instances, such as certificate providers.
- `src/channel.rs`: the builder, the steps of a build and the channel.
- `src/route.rs`: the routing layer, its pre-route hook and the route decision.
- `src/laws.rs`: what holds of routing and building as a whole.
- `app/`: the asynchronous services and the steps that do I/O.

The library awaits nothing. A request is routed in two moves, `begin` and `complete`,
between which the caller waits for the router; a build takes the steps that reach
outside, connecting the client among them, as closures, and calls each only where its
turn comes.
