# spotify_player

The client side of a player for Spotify. It turns what the user asks for into requests,
collects listings page by page, and keeps playlists, albums and artists in a cache for the user
interface.

The library under `src/` holds the decisions and is verified with Verus. It performs no input or
output: handling an event yields a `Step` that carries a request, and the function that takes the
answer yields the step after it.

- `event`, `request`, `model`, `state`: what is asked of the client, what the client asks of
  Spotify, what the answers hold, and what is known of the player.
- `client`: the commands and queries, and the collection of pages.
- `contexts`: the fetching of playlists, albums and artists.
- `handler`: the handling of events, and the turns of the loop around it.
- `event_loop`: what holds of that loop from its first turn to its last.
- `watcher`: what is to be asked for as time goes by.
- `passes`: how a thread that watches goes through what is to be done, and when it ends.
- `albums`, `listing`, `text`: the cleaning up and conversion of listings, and the order of strings.
- `cache`: the cache of contexts. It is an `lru::LruCache`, of which only the contracts of the
  methods in use are taken on trust.
- `fetches`: what holds of a fetch from its first answer to its last.

`app/` is ordinary Rust around the library: requests over the network, threads, shared state and
logging.
