# streamline_operator

A Kubernetes operator for Streamline clusters whose decisions are verified with
[Verus](https://github.com/verus-lang/verus).

The operator reconciles three custom resources:

| Kind | What a reconcile does |
|------|-----------------------|
| `StreamlineCluster` | renders a ConfigMap, two Services and a StatefulSet, and publishes how many brokers are ready |
| `StreamlineTopic` | creates the topic through the Streamline HTTP API and compares what the server reports with the spec |
| `StreamlineUser` | publishes `Unsupported`: the server has no user API |

`StreamlineBranch`, `StreamlineContract`, `StreamlineMemory`, `StreamlineBackup` and
`StreamlineEdge` have a schema, and the first three a controller that nothing starts.

## Layout

- `src/` is the verified library. It holds what the operator decides and computes, as functions
  of plain values: validation and rejection messages, rendered manifests, statuses and their
  conditions, the steps of a reconcile, leader election, metrics, probes, autoscaling,
  scale-to-zero and the operator hub. Each executable function states its result over the
  `deep_view` of its arguments; the public proof functions named `law_..` state what holds of
  several functions together.
- `app/` is the program around it: command line, API server and broker requests, probe and
  metrics servers, and the copies of the resource types that carry serde, schema and kube
  derives.
- `tests/` runs the library.

## What is trusted

The contracts of the functions marked `#[verifier::external_body]` are believed, not proved.
There are few, each calls one function of another crate or of std, and its doc comment says what
is claimed:

| Function | Calls |
|----------|-------|
| `clock::now` | `chrono::Utc::now` |
| `clock::moment_rfc3339` | `chrono::DateTime::from_timestamp` |
| `json::number_at`, `json::present_at` | `serde_json::from_str` and `Value::pointer` |
| `leader_election::random_u32` | `rand::random` |
| `controllers::operator_hub::lower_case` | `str::to_lowercase` |

What depends on the clock has a counterpart that takes the time as an argument, with a contract
that says what is returned for each time.
