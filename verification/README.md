# reverse_proxy

An OpenAI-compatible chat endpoint whose answers come from an MCP-connected
agent. Requests are queued in arrival order; the agent reads each one as the
messages it has not yet seen, answers with text or calls one of the request's
tools, and a tool call waits for the caller to send the tool result back.

- `src/` is the verified core: the queue and conversation state machine
  (`state`), the MCP routing and results (`mcp`), the chat completion replies
  (`openai`), the message model (`message`), JSON framing (`json`) and the
  proved properties of the state machine (`laws`).
- `app/` is the server around it: axum endpoints, the tokio lock, channels and
  notifications that carry each outcome to the party waiting for it.
