//! Location of the backend script.
//!
//! The backend script is looked for next to the daemon binary, then under a
//! `scripts/` directory next to the binary, then in the per-service
//! directory under the home directory, and as a development fallback inside
//! the source tree. Probing the filesystem is I/O and lives with the outer
//! layer; this module fixes the candidate list and the choice among the
//! probed results.

use vstd::prelude::*;
use vstd::string::StringExecFns;

verus! {

/// The ordered candidate locations of the backend script, given the
/// directory of the daemon binary (when known), the home directory (when
/// known) and the development source directory. The development fallback
/// always comes last.
pub open spec fn spec_candidates(
    exe_dir: Option<Seq<char>>,
    home_dir: Option<Seq<char>>,
    dev_dir: Seq<char>,
) -> Seq<Seq<char>> {
    (match exe_dir {
        Some(d) => seq![d + "/gmail-cli.py"@, d + "/scripts/gmail-cli.py"@],
        None => Seq::<Seq<char>>::empty(),
    }) + (match home_dir {
        Some(h) => seq![h + "/.fgp/services/gmail/gmail-cli.py"@],
        None => Seq::<Seq<char>>::empty(),
    }) + seq![dev_dir + "/scripts/gmail-cli.py"@]
}

/// Build the candidate locations of the backend script, in probing order.
pub fn cli_path_candidates(
    exe_dir: Option<&String>,
    home_dir: Option<&String>,
    dev_dir: &String,
) -> (r: Vec<String>)
    ensures
        r@.len() >= 1,
        Seq::new(r@.len(), |i: int| r@[i]@) == spec_candidates(
            match exe_dir {
                Some(d) => Some(d@),
                None => None,
            },
            match home_dir {
                Some(h) => Some(h@),
                None => None,
            },
            dev_dir@,
        ),
{
    let mut r: Vec<String> = Vec::new();
    match exe_dir {
        Some(d) => {
            r.push(d.clone().concat("/gmail-cli.py"));
            r.push(d.clone().concat("/scripts/gmail-cli.py"));
        },
        None => {},
    }
    match home_dir {
        Some(h) => {
            r.push(h.clone().concat("/.fgp/services/gmail/gmail-cli.py"));
        },
        None => {},
    }
    r.push(dev_dir.clone().concat("/scripts/gmail-cli.py"));
    proof {
        assert(Seq::new(r@.len(), |i: int| r@[i]@) =~= spec_candidates(
            match exe_dir {
                Some(d) => Some(d@),
                None => None,
            },
            match home_dir {
                Some(h) => Some(h@),
                None => None,
            },
            dev_dir@,
        ));
    }
    r
}

/// The index of the first candidate that exists; the last candidate when
/// none does.
pub fn select_existing(present: &Vec<bool>) -> (r: usize)
    requires
        present@.len() >= 1,
    ensures
        r < present@.len(),
        forall|j: int| 0 <= j < r ==> !present@[j],
        present@[r as int] || r == present@.len() - 1,
{
    let mut i: usize = 0;
    while i < present.len()
        invariant
            present@.len() >= 1,
            i <= present@.len(),
            forall|j: int| 0 <= j < i ==> !present@[j],
        decreases present@.len() - i,
    {
        if present[i] {
            return i;
        }
        i = i + 1;
    }
    present.len() - 1
}

} // verus!
