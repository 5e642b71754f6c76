# llm_local

A gateway that offers chat completions and embeddings in the form of the OpenAI
API and serves them through local llama.cpp servers, which it starts and waits for.

`src/` is the verified library. It decides everything on plain values: the prompt
and the parameters of a completion, the replies, the embedding of one text after
the other, the token estimate, the commands that start the servers, and the wait
for them. `app/` does the rest: HTTP, the database, the environment, processes,
the clock and JSON.

- `text`, `tokens`, `ids`, `reply`, `endpoints`: trimming and numerals, the token
  estimate, UUIDs and completion ids, replies and status codes, addresses.
- `chat`: from a conversation to a prompt, from an answer to a completion.
- `embeddings`: the state machine of an embedding request.
- `launch`: the commands of the two servers.
- `servers`: the state machine that brings the servers up.
