# jungle

`jungle` is a workflow engine whose flows are trees of steps, conditionals,
loops, joins, selects and attempts, together with a viewer for running
journeys. This crate holds its engine and its viewer logic, verified with
Verus.

## What runs

A flow is a list of nodes (`DynFlow`), each an `ErasedFlow`. A
`ManualExecutor` drives it one effect at a time: it asks the flow for the
next effect request, the caller performs the effect, and hands the
completion back; the executor settles whatever needs no effect on the way.
The nodes are:

- `TypedErasedStep`: one action (`StepAction`), run once; an action whose
  effect needs no I/O runs inline.
- `ConditionalFlow`: reads a control value from its input (a flag byte, a
  branch envelope, or the bare input judged by its `ControlInput`) and runs
  the chosen branch; the choice never changes.
- `WhileFlow`: runs a fresh body (`BodyBuilder`) while its condition holds;
  each iteration's last value is the next control value, and once the
  condition is false every later request answers `Complete`.
- `JoinFlow`: runs both branches, one after the other or at once on copies
  of the state merged back (`StateMerge`); it resolves when both complete.
- `SelectFlow`: races both branches as one request; the runner answers it
  with the report of the branch that finished first, which is replayed.
- `AttemptFlow`: turns the failures of its inner flow into its result.
- `TransparentFlow`: an inner flow with an activation of its own.

What the contracts state, and Verus proves:

- every node, once complete, refuses requests and completions with
  `Complete`, and no node reports `NotEnoughCompletions`;
- each node's refusals, and that a refusal leaves the node as it was;
- a step's request, output and errors, exactly, in terms of its action;
- how a conditional and a loop read their control values, and the input
  the chosen branch or each iteration starts on; that a join hands out a
  request only when it records one in flight, answers a completion it has
  no request for with `NoPendingRequest`, and emits the left branch's last
  value followed by the right's; the select's tagged output; an attempt's
  encoded result;
- the executor's bookkeeping: which input it hands its flow, and that its
  position only moves forward.

What a node's children answer is up to them: a composite node's contract
speaks of its own control state, not of the values its children produce.

## Layout

- `src/` — the library.
  - `flow`, `executor`: the node interface, the helpers that walk a list of
    nodes, and the executor.
  - `step_flow`, `conditional_flow`, `while_flow`, `join_flow`,
    `select_flow`, `attempt_flow`, `transparent_flow`: the nodes; `control`
    reads control values.
  - `join`, `conditional`, `while_loop`, `attempt`, `select`, `transparent`,
    `sequence`, `lifecycle`: the control state of each node, as step
    functions with exact specifications, and the activation bookkeeping
    every node keeps.
  - `envelope`: the byte envelopes that tag a value with a branch or a side.
  - `ast`, `graph`, `labels`, `live`, `panel`, `session`: the journey tree,
    the display graph built from it, and the live view of a running journey.
  - `behavior`: effects, state carriers and the typed actions;
    `transport`, `error`, `taxonomy`: messages, errors and marker traits.
- `tests/` — tests on concrete values; the byte formats are cross-checked
  against `postcard`.
- `app/` — what stays outside the verified library: serde and error-trait
  copies of the message types, the asynchronous effects, `run_to_end`, which
  performs a flow's effects in a loop, `race`, which runs a select's two
  branches concurrently, and `Postcard`, which gives a typed action the
  encoded form a step takes.

## What is not here

Reading a user's own value types is left to the implementations of
`StepAction` and `ControlInput` (in `app/`, through serde); the library
decides which bytes are read as a step's input, looking inside branch
envelopes. Building flows
from type-level descriptions, and the desktop front end of the viewer, are
not part of this crate.
