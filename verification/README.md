# kata_runtime

The decisions of a container runtime that boots its workloads in virtual machines, written in Rust
and verified with Verus.

- `src/` is the library. Every function states in `requires` and `ensures` what it takes and gives,
  and Verus proves it. Functions named `law_*` state what holds across functions.
- `app/` is the side that touches the host: files, mounts, sockets, threads and the services of the
  hypervisor. It asks the library what to do, does it, and reports how it went.
- `tests/` runs the library.

| Module | What it decides |
| --- | --- |
| `k8s`, `mount` | which mounts are Kubernetes volumes, and of which type |
| `volume` | `emptyDir` volumes on block devices |
| `storage`, `rootfs` | overlay root file systems, on the host and in the guest |
| `ch` | devices, life and size of a virtual machine run by Cloud Hypervisor |
| `factory` | virtual machines made from a template |
| `network` | what the agent is told of a network |
| `migration` | where the state of a virtual machine is kept |
| `vsock`, `vsock_forward` | streams and forwarding between guest and host |
| `config`, `agent` | the data that these share |
| `text`, `decimal`, `path`, `encoding`, `name_map` | strings, numbers, paths and tables |

Three calls into other crates are trusted: the URL-safe engine of `base64`, the flag parser of
`go-flag` and the parser of `url`. The comment above each says what is believed of it.
