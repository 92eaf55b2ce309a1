# stahlwerk_extension

The integration layer between the FF01 machine and the BEAS production server,
written in Verus.

- `src/` is the verified library:
  - `ff01/client_proxy.rs`: the proxy's one-request-at-a-time protocol
    (`queue_request`, `poll_response`, `finalize`) and its laws;
  - `ff01/worker.rs`: the worker's decisions (the job each request calls for,
    when to offer a response again and when to give up) and its laws;
  - `ff01/requests.rs`: the query filters, the lookup of the next entry as a
    step function over the server's records, and the choice of a worker's
    scrap submission;
  - `ff01/mod.rs`: requests, responses and the time receipt that closes a
    step; `ff01/error.rs`: the errors; `ff01/channel.rs`: the channels;
  - `float.rs`: IEEE-754 values held by their bit patterns, with their
    comparisons; `text.rs`: decimal text; `service.rs`: the stage-one service.
- `app/` is the program around it: the server client, the worker thread with
  its pauses, the floating-point arithmetic, and `main`.
- `tests/` runs the library on concrete values.
