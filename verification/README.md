# frp_operator

A Kubernetes operator for the FRP client (`frpc`). For each `Client` custom
resource it renders the `frpc` configuration — the server, the token read
from a Secret, and one proxy per `Tunnel` that refers to the client — keeps it
in a Secret annotated with the configuration's hash, and runs `frpc` in a
Deployment that mounts that Secret. Objects are written only when their hash
drifted from the desired one.

Layout:

- `src/` — the verified library: the custom resources (`v1alpha1`, `legacy`),
  the model of the Kubernetes objects (`k8s`, `strmap`), the resolution of the
  `frpc` configuration (`frp`), the managed Secret (`resources`, `hash`) and
  Deployment (`deployment`), the decisions of a reconciliation (`controller`),
  and the properties of the whole (`laws`, `proxy_order`).
- `app/` — the operator program: talks to the cluster, renders TOML, and runs
  the reconciliations that the library decides on.
- `tests/` — tests of the library.
