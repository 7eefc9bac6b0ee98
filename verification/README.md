# sov-rollup-manager

A manager for Sovereign SDK rollup nodes. It runs the versions of a rollup one after the other,
takes the chain through hard-fork upgrades, runs the migration that a version asks for, and
resumes at the right version after a restart. Around it there are the tools that test it: a mock
rollup, a soak test coordinator, a builder of versioned binaries, and an upgrade simulator that
takes real rollups through upgrades.

## Layout

- `src/` is the library. It is verified with Verus, and does no input or output.
- `app/` holds the programs: command lines, files, processes, sockets. The name that the executable
  is called by decides whether it is the manager, `mock-rollup` or `upgrade-simulator`.
- `tests/` runs the library on hosts that keep files and processes in memory.

## How the library meets the outside world

Two shapes occur.

- A *machine* (`runner::RunMachine`, `soak_manager::SoakMachine`, `mock_rollup::MockRun`,
  `rollup_api::HeightSubscription`) says which action comes next, and takes in what came of it.
- A *procedure* (`load_test_case`, `run_test_case`, `prepare_artifacts` and others) reads the
  replies that it has got so far from a `journal::Journal`. Where the journal ends it stops with
  the next call; the host performs the call, records the reply and runs the procedure again.

Either way the contracts say exactly which action or call follows from what has happened, and what
the result is. What holds of whole runs is stated and proved in `run_laws` for the manager, and
beside the procedures for the rest.

## Usage

```shell
sov-rollup-manager -c path/to/config.json -f path/to/checkpoint.json
```

The config lists the versions, from the oldest to the newest:

```json
{
    "versions": [
        {
            "rollup_binary": "path/to/v0/rollup",
            "config_path": "path/to/config.toml",
            "stop_height": 100
        },
        {
            "rollup_binary": "path/to/v1/rollup",
            "config_path": "path/to/config.toml",
            "migration_path": "path/to/state_migration_script.sh",
            "start_height": 101
        }
    ]
}
```

The list alone, without the object around it, is accepted too.
