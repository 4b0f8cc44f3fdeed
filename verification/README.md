# faff-plugin-matrix-rust

A faffage plugin that posts the current faff, the active session of the log, into an end-to-end
encrypted Matrix room: each start, stop and switch, once.

`src/` is the plugin's logic as a library, verified with [Verus](https://github.com/verus-lang/verus).
`app/` is the program around it: the command line, the configuration file and the environment, the
faff workspace, and the Matrix client.

## The library

| module        | what it decides                                                              |
|---------------|------------------------------------------------------------------------------|
| `config`      | the configuration in effect: secrets, defaults, what is refused              |
| `matrix`      | how the room is found, whether the account is the configured one             |
| `moment`      | clock times and durations                                                    |
| `session`     | the snapshot of a session and the fields that a template can name            |
| `template`    | `{key}` templates                                                            |
| `transition`  | what changed between two readings, and the message of it                     |
| `watcher`     | what an event leads to, what is remembered, what is posted                   |
| `delivery`    | whether a message is printed or sent; the `now` and `test` commands          |
| `backoff`     | the waits between attempts of the background sync                            |
| `error`       | the problems that end the program, and their messages                        |
| `collections` | a map and a set of strings                                                   |
| `text`        | strings as sequences of characters                                           |

The contracts speak of views: strings are sequences of characters, a moment is three integers, the
watcher is the session that it remembers. Public proof functions state what holds across calls, such
as that failed readings leave no trace and that starts and stops balance.

What is taken on trust stands behind functions of the crate's own that are marked `external_body`
and not exported: formatting and subtracting times (`chrono`), parsing user IDs, room IDs and room
aliases (`matrix-sdk`), and the `Debug` form of a string.

## The program

```sh
# Verify credentials, resolve room, post a probe.
faff-plugin-matrix-rust -c ~/.config/faff/plugin-matrix.toml test

# Post the current active session once and exit.
faff-plugin-matrix-rust -c ~/.config/faff/plugin-matrix.toml now

# Run the watcher loop. Posts on every start / stop / switch.
faff-plugin-matrix-rust -c ~/.config/faff/plugin-matrix.toml run
```

Building it takes two things that the manifest of the library does without: the `faff-core` crate,
and the `e2e-encryption` feature of `matrix-sdk`.
