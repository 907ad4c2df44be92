# rss_client

A terminal RSS reader. `src/` is the verified library: the subscriptions
(`config`), the parsed feed (`request`), instants and the chrono calls on them
(`time`), text helpers (`text`), the period filter and the screen texts (`ui`),
the key-driven state machine of the interface (`session`) and its properties
(`laws`). `app/` is the program: terminal setup, drawing with ratatui, HTTP
fetching, XML and JSON parsing, and the event loop that feeds key presses to
`session::App` and carries out the commands it returns.
