# Oxiwake

Oxiwake (`ow`) keeps a machine awake where the system allows it, and says so
where it does not. `ow on` starts a small daemon that holds a wake lock, `ow off`
stops it, and `ow doctor` tells what each backend can and cannot promise.

## Layout

- `src/` is the library: every decision, every rule and every text of the tool,
  written in Verus and proved against its contracts.
- `tests/` runs the library on concrete values.
- `app/` is the `ow` program: arguments, files, sockets and pipes, D-Bus, X11,
  Wayland and Win32. It does what the library asks for and reports what came of
  it.

The modules of the library:

| module | what it holds |
| --- | --- |
| `model` | targets, modes, requests, statuses and doctor reports |
| `error` | the error type and its wording |
| `text`, `wide`, `json` | text, UTF-16 and JSON building blocks |
| `ipc` | messages between client and daemon, and their framing |
| `state`, `paths` | the snapshot file, its atomic write, and where files live |
| `backend` | the backends, their order, and how each takes and gives up a lock |
| `platform` | serving on a socket or a pipe, bounded waits, the singleton lock |
| `daemon` | the life of a daemon, and starting, asking and stopping it |
| `doctor`, `output`, `cli` | the doctor report, what is printed, the commands |

## What is proved

Besides the contract of each function, among others:

- a message that was written is read back, whatever white space or interrupted
  read comes between, and messages are read in the order they were written;
- a snapshot is written as a whole or not at all, and read as it was written;
- a daemon holds the wake lock for as long as it serves and releases it on every
  way out;
- however many daemons race, there is never more than one wake lock, and of two
  that race exactly one takes it;
- once a Unix socket is bound, nothing but a request to stop ends the serving;
- a bounded accept, read or write on a pipe ends, with one bounded wait at most;
- every runtime path is absolute;
- the toggle decision matches what `ow status` shows;
- a Windows power request is cleared exactly as it was set;
- the backend that is picked is the strongest one of the build;
- the doctor's table is aligned whatever it shows.
