# dgg-embeds

Collects embeds from dgg, gets some data from them and puts them into an SQLite DB.

`src/` is the library, verified with Verus: which texts of a chat message are embeds, what is
asked about them and what is stored, the cache, the course of a connection, and how it is kept up.
`app/` is the program around it: the connection, the requests, the database and the threads.

| module      | what it decides                                                            |
|-------------|----------------------------------------------------------------------------|
| `text`      | splitting and searching texts                                              |
| `links`     | which embeds stand in a message, and the links that are stored for them    |
| `embed`     | the platform and the channel of a link                                     |
| `oembed`    | the address at which YouTube tells about a video                           |
| `cache`     | what was learnt about links during the last minute                         |
| `intake`    | what is done with the links of a message, one after the other              |
| `session`   | what is done on a connection, from the handshake to its end                |
| `supervise` | the watchdog, the wait before the connection is made again, the log level  |
| `laws`      | what holds over many steps                                                 |

To deploy, put `DEBUG`, `TWITCH_CLIENT_ID` and `TWITCH_CLIENT_SECRET` into `.env` and run the
program; the database is `data/embeddb.db`.
