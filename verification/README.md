# codegraph_agent

The decisions of an agent that answers questions about code with the tools of a code graph, written
and proved in Verus.

- `src/` is the library.
  - `limits`: how much history is kept, how much context is sent, how long answers may be.
  - `chat`, `provider`: the conversation as the agent keeps it and as the provider takes it.
  - `adapter`: requests within the limits, answers, and the progress that is reported.
  - `reply`, `response`: tool calls, as the provider reports them or as the model writes them into
    its text.
  - `agent`: the agent, the number of its turns, and how it is built.
  - `json`: the calls into `serde_json`, with what is taken as known about them.
  - `text`: decimal numbers and settings.
- `tests/` runs the library on examples.
- `app/` puts the agent on the AutoAgents framework: it reads the environment, talks to the language
  model and reads the JSON in its answers.

Functions named `law_...` state what holds of several functions together.
