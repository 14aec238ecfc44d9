# airpodsd

A daemon that keeps a pair of AirPods blocked on the local Bluetooth adapter until
they are worn, and a command line client for it. The decisions are a library that is
verified with Verus; what touches the radio, the disk, the control socket and the
session bus is an ordinary program around it.

## The library (`src/`)

| Module | What it holds |
| --- | --- |
| `model` | charge, modes, ears, and the snapshot that clients see |
| `protocol` | packets of the control channel, advertisements, private addresses |
| `cipher`, `address`, `json` | AES blocks, Bluetooth addresses and JSON documents, by way of `aes`, `bluer` and `serde_json` |
| `policy` | the connection policy as a state machine over mathematical values |
| `daemon` | the daemon that follows the policy |
| `guarantees`, `promises`, `authorization`, `exposure` | what is proved of the policy |
| `bluetooth`, `scanner`, `audio` | finding the adapter, blocking, linking up, following advertisements, choosing a profile |
| `recovery` | guarding and releasing while no daemon runs |
| `storage` | the configuration, where it lies, how it is checked and replaced |
| `control`, `client`, `session` | the command line, the client, and how clients are served |
| `media` | pausing and resuming media players |
| `text` | texts as sequences of characters |

Work that waits for something outside is written as steps: the library says what is to
be done next, the program does it and hands back how it ended. Times are nanoseconds
since the program started.

## What is proved

Each function states its result exactly. Beyond that, public proof functions state what
holds of whole runs, among them:

- `exposure::the_device_stays_blocked`: while an adapter is held and there is no link, a
  device under control was seen to be blocked and not unblocked since.
- `authorization::only_a_fresh_worn_observation_authorizes`: what a connection takes.
- `authorization::attempts_are_apart`: between two of them both buds were out, or a setup
  or a release came to its end.
- `promises::ownership_is_stored_before_unblocking`: a crash leaves nothing behind that
  could not be undone.
- `promises::the_setup_exception_ends_blocked`, `promises::release_restores_before_it_gives_up`,
  `promises::every_request_is_answered_once`, `promises::work_comes_to_an_end`.
- `media::only_players_that_were_paused_here_are_resumed`: a player is asked to play only
  after it was asked here to pause, did, and confirmed it, with the device not lost since.
- `guarantees::every_trigger_keeps_the_state_sound` and
  `guarantees::every_answer_keeps_the_state_sound`: what the parts of the state have to do
  with each other.

## The program (`app/`)

`main` reads the command line; `daemon` runs the policy; `bluetooth` talks to the radio
and to the audio server; `storage` to the disk; `media` to the session bus; `wire` holds
the types that go over the control socket and into the configuration file.
