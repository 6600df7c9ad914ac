# common

The shared library of the douban services, written in Verus: the logic is
stated in `requires` / `ensures` contracts and proved.

- `src/` is the verified library: authentication (finding a request's
  credential, decoding `Basic` credentials, the challenges of an
  unauthorized answer, the refreshed token cookie), cookies, typed ids and
  UUIDs, decimal text, status codes and structured error details with their
  fixed messages, the configuration choices, the etcd registry's keys and
  endpoint changes, the bookkeeping of a resource pool, the course of an
  authorizing call, and the routing of the gRPC services' paths.
- `tests/` runs the library on concrete values.
- `app/` holds what talks to the outside world: environment variables,
  configuration files and the Apollo center, serde forms of the library's
  types, tower middleware, tonic statuses, the pool's async stream, etcd
  registration and discovery, and the command line.
