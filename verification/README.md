# dictionary_api

A dictionary lookup web service. `src/` is the verified core: query-value
validation (`validation`), the body of a refused request (`format_validators`),
the errors and their statuses (`error`), the search query and the choice of
answer (`dictionary`), the labelling of query result cells with their schema
(`rows`), the recovery of the service account key (`credentials`), the
security headers (`headers`) and settings (`config`, `models`).

`app/` runs the service: the web framework's middleware and extractors, the
calls to the query service, and the JSON reading and writing of the library's
types.
