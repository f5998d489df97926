//! How a pod or deployment status reads at a glance.
use vstd::prelude::*;
use vstd::string::StrSliceExecFns;

verus! {

/// The colour class of a status.
#[derive(Debug, Clone, Copy, PartialEq, Eq, Structural)]
pub enum StatusClass {
    /// Running or completed.
    Healthy,
    /// Not running yet.
    Waiting,
    /// Failed or failing.
    Failing,
    /// Anything else.
    Neutral,
}

pub open spec fn status_class_of(s: Seq<char>) -> StatusClass {
    if s == "Running"@ || s == "Succeeded"@ {
        StatusClass::Healthy
    } else if s == "Pending"@ || s == "ContainerCreating"@ {
        StatusClass::Waiting
    } else if s == "Failed"@ || s == "CrashLoopBackOff"@ || s == "Error"@ || s == "ImagePullBackOff"@ {
        StatusClass::Failing
    } else {
        StatusClass::Neutral
    }
}

/// Whether two texts hold the same characters.
pub fn same_text(a: &str, b: &str) -> (r: bool)
    ensures
        r == (a@ == b@),
{
    let n = a.unicode_len();
    if n != b.unicode_len() {
        return false;
    }
    let mut i: usize = 0;
    while i < n
        invariant
            n == a@.len(),
            n == b@.len(),
            i <= n,
            forall|j: int| 0 <= j < i ==> a@[j] == b@[j],
        decreases n - i,
    {
        if a.get_char(i) != b.get_char(i) {
            return false;
        }
        i = i + 1;
    }
    assert(a@ =~= b@);
    true
}

/// The colour class of a status.
pub fn status_class(status: &str) -> (r: StatusClass)
    ensures
        r == status_class_of(status@),
{
    if same_text(status, "Running") || same_text(status, "Succeeded") {
        StatusClass::Healthy
    } else if same_text(status, "Pending") || same_text(status, "ContainerCreating") {
        StatusClass::Waiting
    } else if same_text(status, "Failed") || same_text(status, "CrashLoopBackOff") || same_text(status, "Error")
        || same_text(status, "ImagePullBackOff") {
        StatusClass::Failing
    } else {
        StatusClass::Neutral
    }
}

} // verus!
