# ZenMonitor

A monitoring server (HTTP/HTTPS, ping, TCP and certificate checks, agent
reports, live dashboard events) and a metrics agent.

- `src/` is the verified library: parsing `/proc/meminfo`, the data model,
  the API's answers, which monitors each probe takes and the verdict it
  gives, certificate inspection, the agent's report identity and the ranking
  of top processes. Every function carries a contract. Verus proves each one
  except the four trusted wrappers around outside calls (UUID generation, URL
  parsing, X.509 parsing, the clock), whose contracts state only what the
  outside source shows. The `lemma_*` proof functions state the library's laws.
- `app/` is the program around it: HTTP server (axum), SQLite storage
  (rusqlite), network checks (reqwest, surge-ping, rustls), host readings
  (sysinfo) and the agent's reporting loop. Run `zenmonitor` for the server
  and `zenmonitor agent` for the agent.
- `tests/` runs the library on concrete values.
