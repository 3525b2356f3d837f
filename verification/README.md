# biliticket

The verified core of a desktop client for buying tickets on Bilibili's ticket
service, written in Verus.

- `src/` is the library; Verus proves every function in it against its
  contract.
  - `text`: trimming, splitting, decimal printing and parsing, substring search.
  - `account`: the CSRF token of a cookie, accounts built from the
    account-info response, their debug text and their own clients.
  - `client`: how the HTTP clients are set up (cookie store, default
    `Cookie` and `User-Agent` headers).
  - `ticket`: project, screen, ticket-kind and buyer data, device ids, and
    the per-account ticket session.
  - `taskmanager`: background-task states, requests and results, and the
    notice the task manager carries.
  - `frontend`: the account list, the log and its error banner, the ticket
    sessions, user agents and the placeholder avatar.
  - `frame`: one frame of the front end without drawing: applying task
    results and deciding which requests the windows send, with the
    five-second cool-down between requests.
- `tests/` runs the library on concrete values.
- `app/` is the program around it: network requests, JSON reading, the
  settings file and the loop that performs what the library decides.
