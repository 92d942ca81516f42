# connie

The verified core of Connie, a self-hosted file server and its client.

`src/` holds the library, verified with Verus: the wire constants
(`protocol`), request records (`request`, `media`, `req_format`, `host`),
the framing of vectors and the packet rules of file transfers (`framing`,
`transfer`), the handshake, serving, client-request and connection state
machines (`handshake`, `serving`, `client_request`, `connector`), the
server's session machine and its rules (`server_session`, `session`), the
listener rules (`listener`), the
reconciliation of public files (`public_files`), log texts (`logs`),
request sorting (`sort_requests`), database targets (`db`) and the
progress gauge's title and colour (`gauge`). `exchange` proves that the
server's and the client's machines agree on uploads, downloads,
deletions, logins and token requests.

`app/` is the asynchronous input and output around it: sockets, TLS,
files, the databases and the terminal. It runs the library's state
machines, performing each action and handing back each event.

`tests/` exercises the library on concrete values.
