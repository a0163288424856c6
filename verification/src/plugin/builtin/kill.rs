//! `kill` builtin converter: maps `kill` to target process management calls.

use super::BuiltinConverter;
use crate::plugin::ConvertError;
use crate::text::{join_with, spec_join, spec_starts_with, starts_with, str_eq, views};
use vstd::prelude::*;

verus! {

/// Converter for the `kill` builtin.
pub struct KillBuiltinConverter;

/// The flag state gathered while scanning `kill` arguments.
pub struct KillScan {
    pub signal: Seq<char>,
    pub list: bool,
    pub pids: Seq<Seq<char>>,
    pub specs: Seq<Seq<char>>,
}

pub open spec fn spec_kill_init() -> KillScan {
    KillScan { signal: "TERM"@, list: false, pids: Seq::empty(), specs: Seq::empty() }
}

/// Scans `kill` arguments: `-s SIGNAL`, `-SIGNAL`, job specifications and
/// process identifiers.
pub open spec fn spec_kill_scan(vs: Seq<Seq<char>>, i: int, st: KillScan) -> KillScan
    decreases vs.len() - i,
{
    if i < 0 || i >= vs.len() {
        st
    } else if vs[i] == "-l"@ || vs[i] == "--list"@ {
        spec_kill_scan(vs, i + 1, KillScan { list: true, ..st })
    } else if vs[i] == "-s"@ {
        if i + 1 < vs.len() {
            spec_kill_scan(vs, i + 2, KillScan { signal: vs[i + 1], ..st })
        } else {
            spec_kill_scan(vs, i + 1, st)
        }
    } else if spec_starts_with(vs[i], "-"@) && vs[i].len() > 1 {
        spec_kill_scan(vs, i + 1, KillScan { signal: vs[i].skip(1), ..st })
    } else if spec_starts_with(vs[i], "%"@) {
        spec_kill_scan(vs, i + 1, KillScan { specs: st.specs.push(vs[i]), ..st })
    } else {
        spec_kill_scan(vs, i + 1, KillScan { pids: st.pids.push(vs[i]), ..st })
    }
}

/// The `--signal` insertion used when the signal is not the default.
pub open spec fn spec_kill_signal_part(signal: Seq<char>) -> Seq<char> {
    if signal != "TERM"@ {
        " --signal "@ + signal
    } else {
        Seq::empty()
    }
}

/// The kill pipeline for one job specification.
pub open spec fn spec_kill_job_one(sp: Seq<char>, signal: Seq<char>) -> Seq<char> {
    let id = if spec_starts_with(sp, "%"@) {
        sp.skip(1)
    } else {
        sp
    };
    (if id == "%"@ || id == "+"@ {
        "jobs | where job_id == \"current\" | get pid | each { |pid| kill"@
    } else if id == "-"@ {
        "jobs | where job_id == \"previous\" | get pid | each { |pid| kill"@
    } else {
        "jobs | where job_id == \""@ + id + "\" | get pid | each { |pid| kill"@
    }) + spec_kill_signal_part(signal) + " $pid }"@
}

/// The kill pipelines for all job specifications, joined with `; `.
pub open spec fn spec_kill_jobs_from(specs: Seq<Seq<char>>, signal: Seq<char>, i: int) -> Seq<char>
    decreases specs.len() - i,
{
    if i < 0 || i >= specs.len() {
        Seq::empty()
    } else {
        (if i > 0 {
            "; "@
        } else {
            Seq::<char>::empty()
        }) + spec_kill_job_one(specs[i], signal) + spec_kill_jobs_from(specs, signal, i + 1)
    }
}

/// The kill rendering for the plain process identifiers.
pub open spec fn spec_kill_pids_part(pids: Seq<Seq<char>>, signal: Seq<char>) -> Seq<char> {
    if pids.len() == 1 {
        "kill"@ + spec_kill_signal_part(signal) + " "@ + pids[0]
    } else {
        "["@ + spec_join(pids, " "@) + "] | each { |pid| kill"@ + spec_kill_signal_part(signal)
            + " $pid }"@
    }
}

/// The exact text produced for `kill` from its scanned flags.
pub open spec fn spec_kill_render(st: KillScan) -> Seq<char> {
    if st.list {
        "# Signal list: HUP INT QUIT ILL TRAP ABRT BUS FPE KILL USR1 SEGV USR2 PIPE ALRM TERM"@
    } else if st.specs.len() == 0 && st.pids.len() == 0 {
        "kill # Usage: kill [-signal] pid..."@
    } else {
        spec_kill_jobs_from(st.specs, st.signal, 0) + (if st.pids.len() > 0 {
            (if st.specs.len() > 0 {
                "; "@
            } else {
                Seq::<char>::empty()
            }) + spec_kill_pids_part(st.pids, st.signal)
        } else {
            Seq::<char>::empty()
        })
    }
}

pub open spec fn spec_convert_kill(vs: Seq<Seq<char>>) -> Seq<char> {
    if vs.len() == 0 {
        "kill"@
    } else {
        spec_kill_render(spec_kill_scan(vs, 0, spec_kill_init()))
    }
}

/// Scan the arguments of `kill` into its flag state.
#[verifier::loop_isolation(false)]
#[verifier::rlimit(60)]
fn kill_scan(args: &[String]) -> (r: (String, bool, Vec<String>, Vec<String>))
    ensures
        spec_kill_scan(views(args@), 0, spec_kill_init()) == (KillScan {
            signal: r.0@,
            list: r.1,
            pids: views(r.2@),
            specs: views(r.3@),
        }),
{
    let ghost vs = views(args@);
    let mut signal: String = "TERM".to_owned();
    let mut list = false;
    let mut pids: Vec<String> = Vec::new();
    let mut specs: Vec<String> = Vec::new();
    proof {
        assert(views(pids@) =~= Seq::<Seq<char>>::empty());
        assert(views(specs@) =~= Seq::<Seq<char>>::empty());
    }
    let mut i: usize = 0;
    while i < args.len()
        invariant
            i <= args@.len(),
            spec_kill_scan(vs, 0, spec_kill_init()) == spec_kill_scan(
                vs,
                i as int,
                KillScan { signal: signal@, list: list, pids: views(pids@), specs: views(specs@) },
            ),
        decreases args@.len() - i,
    {
        let a = args[i].as_str();
        let n = a.unicode_len();
        proof {
            assert(vs[i as int] == args@[i as int]@);
            if i + 1 < args.len() {
                assert(vs[i as int + 1] == args@[i as int + 1]@);
            }
        }
        if str_eq(a, "-l") || str_eq(a, "--list") {
            list = true;
            i = i + 1;
        } else if str_eq(a, "-s") {
            if i + 1 < args.len() {
                signal = args[i + 1].clone();
                i = i + 2;
            } else {
                i = i + 1;
            }
        } else if starts_with(a, "-") && n > 1 {
            signal = a.substring_char(1, n).to_owned();
            proof {
                assert(signal@ =~= args@[i as int]@.skip(1));
            }
            i = i + 1;
        } else if starts_with(a, "%") {
            let ghost prev = specs@;
            specs.push(args[i].clone());
            proof {
                assert(views(specs@) =~= views(prev).push(args@[i as int]@));
            }
            i = i + 1;
        } else {
            let ghost prev = pids@;
            pids.push(args[i].clone());
            proof {
                assert(views(pids@) =~= views(prev).push(args@[i as int]@));
            }
            i = i + 1;
        }
    }
    (signal, list, pids, specs)
}

/// The kill pipeline for one job specification, executably.
fn kill_job_one(sp: &String, signal: &String) -> (r: String)
    ensures
        r@ == spec_kill_job_one(sp@, signal@),
{
    proof {
        reveal_strlit("%");
    }
    let n = sp.as_str().unicode_len();
    let mut out: String;
    if starts_with(sp.as_str(), "%") {
        let id = sp.as_str().substring_char(1, n);
        proof {
            assert(id@ =~= sp@.skip(1));
        }
        if str_eq(id, "%") || str_eq(id, "+") {
            out = "jobs | where job_id == \"current\" | get pid | each { |pid| kill".to_owned();
        } else if str_eq(id, "-") {
            out = "jobs | where job_id == \"previous\" | get pid | each { |pid| kill".to_owned();
        } else {
            out = "jobs | where job_id == \"".to_owned();
            out.append(id);
            out.append("\" | get pid | each { |pid| kill");
        }
    } else {
        if str_eq(sp.as_str(), "%") || str_eq(sp.as_str(), "+") {
            out = "jobs | where job_id == \"current\" | get pid | each { |pid| kill".to_owned();
        } else if str_eq(sp.as_str(), "-") {
            out = "jobs | where job_id == \"previous\" | get pid | each { |pid| kill".to_owned();
        } else {
            out = "jobs | where job_id == \"".to_owned();
            out.append(sp.as_str());
            out.append("\" | get pid | each { |pid| kill");
        }
    }
    if !str_eq(signal.as_str(), "TERM") {
        out.append(" --signal ");
        out.append(signal.as_str());
    }
    out.append(" $pid }");
    out
}

/// The kill pipelines for all job specifications.
#[verifier::loop_isolation(false)]
fn kill_jobs_part(specs: &Vec<String>, signal: &String) -> (r: String)
    ensures
        r@ == spec_kill_jobs_from(views(specs@), signal@, 0),
{
    let ghost gspecs = views(specs@);
    let mut out = String::new();
    let mut k: usize = 0;
    while k < specs.len()
        invariant
            k <= specs@.len(),
            out@ + spec_kill_jobs_from(gspecs, signal@, k as int) == spec_kill_jobs_from(
                gspecs,
                signal@,
                0,
            ),
        decreases specs@.len() - k,
    {
        if k > 0 {
            out.append("; ");
        }
        let one = kill_job_one(&specs[k], signal);
        out.append(one.as_str());
        proof {
            assert(gspecs[k as int] == specs@[k as int]@);
        }
        k = k + 1;
    }
    proof {
        assert(spec_kill_jobs_from(gspecs, signal@, specs@.len() as int) =~= Seq::<char>::empty());
        assert(out@ + Seq::<char>::empty() =~= out@);
    }
    out
}

impl BuiltinConverter for KillBuiltinConverter {
    open spec fn spec_convert(&self, vs: Seq<Seq<char>>) -> Seq<char> {
        spec_convert_kill(vs)
    }

    open spec fn spec_name(&self) -> Seq<char> {
        "kill"@
    }

    #[verifier::loop_isolation(false)]
    #[verifier::rlimit(60)]
    fn convert(&self, args: &[String]) -> (r: Result<String, ConvertError>) {
        let ghost vs = views(args@);
        if args.len() == 0 {
            return Ok("kill".to_owned());
        }
        let (signal, list, pids, specs) = kill_scan(args);
        let ghost st = spec_kill_scan(vs, 0, spec_kill_init());
        if list {
            return Ok(
                "# Signal list: HUP INT QUIT ILL TRAP ABRT BUS FPE KILL USR1 SEGV USR2 PIPE ALRM TERM".to_owned(),
            );
        }
        if specs.len() == 0 && pids.len() == 0 {
            return Ok("kill # Usage: kill [-signal] pid...".to_owned());
        }
        let mut out = kill_jobs_part(&specs, &signal);
        if pids.len() > 0 {
            if specs.len() > 0 {
                out.append("; ");
            }
            if pids.len() == 1 {
                out.append("kill");
                if !str_eq(signal.as_str(), "TERM") {
                    out.append(" --signal ");
                    out.append(signal.as_str());
                }
                out.append(" ");
                out.append(pids[0].as_str());
                proof {
                    assert(views(pids@)[0] == pids@[0]@);
                }
            } else {
                out.append("[");
                proof {
                    reveal_strlit(" ");
                    assert(" "@ =~= seq![' ']);
                }
                let joined = join_with(&pids, " ");
                out.append(joined.as_str());
                out.append("] | each { |pid| kill");
                if !str_eq(signal.as_str(), "TERM") {
                    out.append(" --signal ");
                    out.append(signal.as_str());
                }
                out.append(" $pid }");
            }
        }
        Ok(out)
    }

    fn builtin_name(&self) -> (r: &'static str) {
        "kill"
    }

    fn description(&self) -> &'static str {
        "Converts kill builtin commands to target process management commands"
    }
}

} // verus!
