//! The registry of builtin module names: an immutable set, exposed only
//! through a membership test.

use crate::chars::str_eq;
use vstd::prelude::*;

verus! {

/// Membership in the builtin-module registry.
pub open spec fn is_builtin_name(s: Seq<char>) -> bool {
    ||| s == "assert"@
    ||| s == "async_hooks"@
    ||| s == "buffer"@
    ||| s == "child_process"@
    ||| s == "cluster"@
    ||| s == "console"@
    ||| s == "constants"@
    ||| s == "crypto"@
    ||| s == "dgram"@
    ||| s == "diagnostics_channel"@
    ||| s == "dns"@
    ||| s == "domain"@
    ||| s == "events"@
    ||| s == "fs"@
    ||| s == "http"@
    ||| s == "http2"@
    ||| s == "https"@
    ||| s == "inspector"@
    ||| s == "module"@
    ||| s == "net"@
    ||| s == "os"@
    ||| s == "path"@
    ||| s == "perf_hooks"@
    ||| s == "process"@
    ||| s == "punycode"@
    ||| s == "querystring"@
    ||| s == "readline"@
    ||| s == "repl"@
    ||| s == "stream"@
    ||| s == "string_decoder"@
    ||| s == "sys"@
    ||| s == "timers"@
    ||| s == "tls"@
    ||| s == "trace_events"@
    ||| s == "tty"@
    ||| s == "url"@
    ||| s == "util"@
    ||| s == "v8"@
    ||| s == "vm"@
    ||| s == "wasi"@
    ||| s == "worker_threads"@
    ||| s == "zlib"@
}

/// Tests whether a name is a builtin module of the host platform.
pub fn is_builtin(name: &str) -> (r: bool)
    ensures
        r == is_builtin_name(name@),
{
    str_eq(name, "assert") || str_eq(name, "async_hooks") || str_eq(name, "buffer") || str_eq(
        name,
        "child_process",
    ) || str_eq(name, "cluster") || str_eq(name, "console") || str_eq(name, "constants") || str_eq(
        name,
        "crypto",
    ) || str_eq(name, "dgram") || str_eq(name, "diagnostics_channel") || str_eq(name, "dns")
        || str_eq(name, "domain") || str_eq(name, "events") || str_eq(name, "fs") || str_eq(
        name,
        "http",
    ) || str_eq(name, "http2") || str_eq(name, "https") || str_eq(name, "inspector") || str_eq(
        name,
        "module",
    ) || str_eq(name, "net") || str_eq(name, "os") || str_eq(name, "path") || str_eq(
        name,
        "perf_hooks",
    ) || str_eq(name, "process") || str_eq(name, "punycode") || str_eq(name, "querystring")
        || str_eq(name, "readline") || str_eq(name, "repl") || str_eq(name, "stream") || str_eq(
        name,
        "string_decoder",
    ) || str_eq(name, "sys") || str_eq(name, "timers") || str_eq(name, "tls") || str_eq(
        name,
        "trace_events",
    ) || str_eq(name, "tty") || str_eq(name, "url") || str_eq(name, "util") || str_eq(name, "v8")
        || str_eq(name, "vm") || str_eq(name, "wasi") || str_eq(name, "worker_threads") || str_eq(
        name,
        "zlib",
    )
}

} // verus!
