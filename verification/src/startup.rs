//! Decisions taken when the application starts.

use vstd::prelude::*;
use crate::text::text_eq;

verus! {

/// Whether the command line holds the `--restarted` flag, which an update
/// passes to the application it restarts.
pub fn has_restart_flag(args: &[String]) -> (res: bool)
    ensures
        res == exists|i: int| 0 <= i < args@.len() && (#[trigger] args@[i])@ == "--restarted"@,
{
    let n = args.len();
    let mut i: usize = 0;
    while i < n
        invariant
            n == args@.len(),
            i <= n,
            forall|j: int| 0 <= j < i ==> (#[trigger] args@[j])@ != "--restarted"@,
        decreases n - i,
    {
        if text_eq(args[i].as_str(), "--restarted") {
            return true;
        }
        i = i + 1;
    }
    false
}

/// Whether the theme named `name` is the built-in one: no name, or `default`.
pub fn uses_builtin_theme(name: &str) -> (res: bool)
    ensures
        res == (name@.len() == 0 || name@ == "default"@),
{
    name.is_empty() || text_eq(name, "default")
}

/// The message given when another instance already runs.
pub fn already_running_message() -> (res: String)
    ensures
        res@ == "程序已在运行"@,
{
    String::from_str("程序已在运行")
}

/// The message given when the single-instance lock cannot be created, with its reason.
pub fn lock_failed_message(reason: &str) -> (res: String)
    ensures
        res@ == "创建互斥锁失败: "@ + reason@,
{
    let mut s = String::from_str("创建互斥锁失败: ");
    s.append(reason);
    s
}

} // verus!
