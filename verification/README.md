# jni_simple

A thin binding to the JNI invocation API, split into a library verified with
Verus (`src/`) and the ordinary Rust around it (`app/`).

`src/` holds what can be decided without touching the JVM or the operating
system, each with its contract and the laws that tie the pieces together:

- `lock_protocol`, `lock`: the reader/writer spin lock over one atomic word
  that guards the process-wide link. The proofs that a writer excludes
  readers and that releasing undoes acquiring are about a model of the word:
  the atomic operations themselves carry no specification of the values they
  see, so what ties the model to the code is the shared constants and the
  verified decisions `reader_admitted` and `writer_admitted`, which the
  attempts in `lock` apply to what the atomic operations return.
- `link`: the link to the two JVM entry points, linking it at most once,
  storing the result of a load, and the law that the JVM is linked exactly
  when some earlier call reported success.
- `loader`: loading the JVM shared object, step by step.
- `java_home`: the known layouts of a Java installation and the search through
  them.
- `errors`: the error values of loading, their descriptions and conversions.
- `invocation`: checking what `JNI_CreateJavaVM` and `JNI_GetCreatedJavaVMs`
  return, and preparing the arguments of the first, option strings included.
- `agent`: reading the address an agent shim receives as its option string.

`app/` holds the statics, the spinning, the calls into the dynamic linker
(`libloading`), the file system probes and the raw JNI calls, and drives the
step functions of `src/`.
