# ArylTerm

A terminal for tmux sessions on SSH servers. It keeps the session connected:
a connection that is lost is opened again, with a growing wait between attempts.

The library under `src/` takes all decisions and performs no input or output.
Its functions carry contracts that Verus proves.

- `cli`, `host`, `text`: the command line, hosts with ports, numbers
- `config`, `shell`: what a session is made from, and the command that attaches to it
- `session`, `hostkey`: the requests that open a session, and the trust in a host key
- `manager`: the session manager, one input at a time
- `stdio`, `payload`: what passes between a channel and its user
- `manager_laws`, `path_laws`: what holds over any course of events

The program under `app/` performs the requests and actions, with russh and tokio.

## Run

Password:

```
ARYLTERM_SSH_PASSWORD=... arylterm --host example.com --user arya --tmux main --accept-any-host-key
```

Private key:

```
arylterm --host example.com --user arya --key ~/.ssh/id_ed25519 --tmux main --accept-any-host-key
```

Use `--host-key-sha256 SHA256:...` instead of `--accept-any-host-key` once the
fingerprint of the server is known.
