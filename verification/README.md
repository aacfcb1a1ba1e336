# neotalk_edge

The verified core of an edge automation platform: workflows (templates,
versions, triggers, execution tracking, compensation, the engine's decisions
and the layout of stored records), and the tools that a language-model agent
calls (device discovery and control, rules, alerts, configuration, exports
and reports), with the descriptions handed to the model.

- `src/` is the library, written in Verus. Every executable function carries
  a `requires`/`ensures` contract that Verus proves. Values that the platform
  reads as floating-point numbers are held as thousandths or as decimal text.
- `tests/` runs the library on concrete inputs.
- `app/` is the runtime around it: `serde_json` values, the asynchronous tool
  interface and registry, the loop that runs workflows on the library's
  engine, storage in `redb`, cron scheduling, and the floating-point
  statistics of device readings.
