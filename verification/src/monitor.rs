//! Container lifecycle events of the workload monitor, and the one
//! question the monitor asks of them: did a container die, and with what
//! exit code.
use vstd::prelude::*;

verus! {

/// One event record of the container engine's event stream (only the
/// fields the monitor acts on; all optional).
#[derive(Debug, Clone)]
pub struct Event {
    /// Object type, e.g. `"container"`.
    pub type_: Option<String>,
    /// Event action, e.g. `"died"`, `"start"`.
    pub status: Option<String>,
    /// Process exit code, present on container deaths.
    pub exit_code: Option<i64>,
}

/// Whether an optional string holds exactly `expected`.
pub open spec fn spec_is(s: Option<String>, expected: Seq<char>) -> bool {
    match s {
        Some(t) => t@ == expected,
        None => false,
    }
}

fn is(s: &Option<String>, expected: &str) -> (r: bool)
    ensures
        r == spec_is(*s, expected@),
{
    match s {
        Some(t) => {
            let e = expected.to_owned();
            *t == e
        },
        None => false,
    }
}

impl Event {
    /// Whether this record is the death of a container.
    pub open spec fn spec_is_container_death(&self) -> bool {
        spec_is(self.type_, "container"@) && spec_is(self.status, "died"@)
    }

    /// The exit code of a container death (0 when the record carries none);
    /// `None` for any other record.
    pub fn container_death_exit_code(&self) -> (r: Option<i64>)
        ensures
            r == if self.spec_is_container_death() {
                Some(
                    match self.exit_code {
                        Some(c) => c,
                        None => 0,
                    },
                )
            } else {
                None::<i64>
            },
    {
        let is_container_death = is(&self.type_, "container") && is(&self.status, "died");
        if is_container_death {
            Some(
                match self.exit_code {
                    Some(c) => c,
                    None => 0,
                },
            )
        } else {
            None
        }
    }
}

} // verus!
