//! Developer mode: raw commands in a shell. Only reached for devices in
//! Developer mode; stdout and stderr come back in the response.

use vstd::prelude::*;
use crate::launch::{launch_of, launches, Launch};
use crate::outside::{trim_text, trimmed};
use crate::protocol::{ServerResponse, ShellType, is_refusal};
use crate::text::{concat2, concat3, i64_decimal, signed_decimal};

verus! {

/// The process that runs `cmd` in `shell`.
pub fn execute(cmd: &str, shell: ShellType) -> (l: Launch)
    ensures
        match shell {
            ShellType::Powershell => launches(l, "powershell"@, seq!["-NoProfile"@, "-NonInteractive"@, "-Command"@, cmd@]),
            ShellType::Cmd => launches(l, "cmd"@, seq!["/c"@, cmd@]),
        },
{
    match shell {
        ShellType::Powershell => {
            let args: [&str; 4] = ["-NoProfile", "-NonInteractive", "-Command", cmd];
            assert(args@.map_values(|s: &str| s@) =~= seq!["-NoProfile"@, "-NonInteractive"@, "-Command"@, cmd@]);
            launch_of("powershell", &args)
        },
        ShellType::Cmd => {
            let args: [&str; 2] = ["/c", cmd];
            assert(args@.map_values(|s: &str| s@) =~= seq!["/c"@, cmd@]);
            launch_of("cmd", &args)
        },
    }
}

/// Rust's `{:?}` of an optional exit code: `Some(<code>)` or `None`.
pub open spec fn code_debug(code: Option<i32>) -> Seq<char> {
    match code {
        Some(c) => "Some("@ + signed_decimal(c as int) + ")"@,
        None => "None"@,
    }
}

fn code_text(code: Option<i32>) -> (s: String)
    ensures
        s@ == code_debug(code),
{
    match code {
        Some(c) => concat3("Some(", i64_decimal(c as i64).as_str(), ")"),
        None => String::from_str("None"),
    }
}

/// The result of a finished command: stdout followed by
/// stderr, trimmed; on failure that text, or the exit code when it is empty.
pub fn merge_output(stdout: &str, stderr: &str, success: bool, code: Option<i32>) -> (r: Result<String, String>)
    ensures
        success ==> (r matches Ok(t) && t@ == trimmed(stdout@ + stderr@)),
        !success && trimmed(stdout@ + stderr@).len() > 0 ==> (r matches Err(t) && t@ == trimmed(stdout@ + stderr@)),
        !success && trimmed(stdout@ + stderr@).len() == 0 ==> (r matches Err(t)
            && t@ == "Команда завершилась с кодом: "@ + code_debug(code)),
{
    let joined = concat2(stdout, stderr);
    let combined = trim_text(joined.as_str());
    if success {
        Ok(combined)
    } else if combined.as_str().is_empty() {
        Err(concat2("Команда завершилась с кодом: ", code_text(code).as_str()))
    } else {
        Err(combined)
    }
}

/// The answer for a shell command's result.
pub fn shell_response(result: Result<String, String>) -> (r: ServerResponse)
    ensures
        match result {
            Ok(t) => r.ok && r.output == Some(t) && r.error is None && r.data is None,
            Err(e) => is_refusal(r, e@),
        },
{
    match result {
        Ok(t) => ServerResponse::ok_output(t),
        Err(e) => ServerResponse::err(e),
    }
}

} // verus!
