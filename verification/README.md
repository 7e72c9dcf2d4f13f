# iphone_use

The decisions of a server that lets people and agents drive an iPhone, as a
library with proved contracts, and the server around it.

- `src/` is the library. It decides who may drive the phone, what a request asks
  for, which element of the screen it means, when a failed request may be sent
  again, how the phone is taken, held and let go, and what is answered. It does no
  I/O: it takes times and what was read as values. Longer work is a machine that
  is handed an event and gives back the next command.
- `app/` is the server: routes, the runner on the phone, `launchctl`, files, and
  the arithmetic on frames and points, which is floating-point.
- `tests/` runs the library on concrete values.

## Modules

| | |
|---|---|
| `text`, `scan`, `percent`, `search` | strings |
| `json`, `reply` | documents in, answers out |
| `auth`, `session`, `socket`, `ice` | who may talk to the server |
| `owner`, `lease`, `capability` | who may drive the phone |
| `lifecycle`, `health`, `state`, `mode`, `watchdog`, `launchd`, `setup` | taking the phone and letting it go |
| `element`, `locator`, `observe`, `settle`, `tree_read` | the screen |
| `action`, `apps`, `batch`, `actions`, `run` | batches of actions |
| `control`, `sending`, `errand`, `tap`, `device`, `outcome` | one action |
| `input`, `dispatch` | a message from its arrival to its answer |
| `intents`, `intent`, `inbox` | named shortcuts and their results |
| `media`, `stream`, `status` | pictures, video, and the state of it all |

Proof functions whose names begin with `law_` state what holds of several
functions together.
