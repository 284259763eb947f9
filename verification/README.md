# kodegen_github

GitHub repository search and GitHub API operations, with the search's
decisions, scores and bookkeeping verified with Verus.

- `src/` is the verified library: the metric collectors (README, code
  quality, tests, CI/CD, documentation, dependencies and their freshness,
  security, structure), the activity metrics, the API and local scores and
  how they combine, the LRU result cache with its time to live, the rate
  limiter, the search text, user search validation, release asset names,
  and the messages of errors. Scores are exact fractions (`Ratio`); times
  are seconds since the Unix epoch.
- `app/` is the asynchronous part around it: GitHub requests (octocrab),
  clones (gix), reading files, registry lookups (reqwest), concurrency and
  the task and stream handles.
- `tests/` runs the library on concrete inputs.
