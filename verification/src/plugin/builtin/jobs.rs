//! `jobs` builtin converter: maps `jobs` to target job management pipelines.

use super::BuiltinConverter;
use crate::plugin::ConvertError;
use crate::text::{
    join_with, parse_i32, spec_join, spec_parse_i32, spec_starts_with, starts_with, str_eq, views,
};
use vstd::prelude::*;

verus! {

/// Converter for the `jobs` builtin.
pub struct JobsBuiltinConverter;

/// The flag state gathered while scanning `jobs` arguments.
pub struct JobsScan {
    pub pids: bool,
    pub long: bool,
    pub running: bool,
    pub stopped: bool,
    pub specs: Seq<Seq<char>>,
}

pub open spec fn spec_jobs_init() -> JobsScan {
    JobsScan { pids: false, long: false, running: false, stopped: false, specs: Seq::empty() }
}

/// Scans `jobs` arguments: output flags, job specifications (`%N`), and bare
/// job numbers, which become `%N` specifications.
pub open spec fn spec_jobs_scan(vs: Seq<Seq<char>>, i: int, st: JobsScan) -> JobsScan
    decreases vs.len() - i,
{
    if i < 0 || i >= vs.len() {
        st
    } else if vs[i] == "-l"@ {
        spec_jobs_scan(vs, i + 1, JobsScan { long: true, ..st })
    } else if vs[i] == "-p"@ {
        spec_jobs_scan(vs, i + 1, JobsScan { pids: true, ..st })
    } else if vs[i] == "-r"@ {
        spec_jobs_scan(vs, i + 1, JobsScan { running: true, ..st })
    } else if vs[i] == "-s"@ {
        spec_jobs_scan(vs, i + 1, JobsScan { stopped: true, ..st })
    } else if vs[i] == "-n"@ || vs[i] == "-x"@ {
        spec_jobs_scan(vs, i + 1, st)
    } else if spec_starts_with(vs[i], "%"@) {
        spec_jobs_scan(vs, i + 1, JobsScan { specs: st.specs.push(vs[i]), ..st })
    } else if spec_parse_i32(vs[i]) is Some {
        spec_jobs_scan(vs, i + 1, JobsScan { specs: st.specs.push("%"@ + vs[i]), ..st })
    } else {
        spec_jobs_scan(vs, i + 1, st)
    }
}

/// The filter expression for one job specification.
pub open spec fn spec_jobs_filter(sp: Seq<char>) -> Seq<char> {
    if spec_starts_with(sp, "%"@) {
        let id = sp.skip(1);
        if id == "%"@ || id == "+"@ {
            "job_id == \"current\""@
        } else if id == "-"@ {
            "job_id == \"previous\""@
        } else {
            "job_id == \""@ + id + "\""@
        }
    } else {
        "job_id == \""@ + sp + "\""@
    }
}

/// The exact text produced for `jobs` from its scanned flags.
pub open spec fn spec_jobs_render(st: JobsScan) -> Seq<char> {
    let format_part: Seq<char> = if st.pids {
        " | get pid"@
    } else if st.long {
        " | select job_id pid command status"@
    } else {
        Seq::empty()
    };
    let status_part: Seq<char> = if st.running && !st.stopped {
        " | where status == \"running\""@
    } else if st.stopped && !st.running {
        " | where status == \"stopped\""@
    } else {
        Seq::empty()
    };
    let specs_part: Seq<char> = if st.specs.len() > 0 {
        " | where ("@ + spec_join(st.specs.map_values(|sp: Seq<char>| spec_jobs_filter(sp)), " or "@)
            + ")"@
    } else {
        Seq::empty()
    };
    "jobs"@ + format_part + status_part + specs_part
}

pub open spec fn spec_convert_jobs(vs: Seq<Seq<char>>) -> Seq<char> {
    if vs.len() == 0 {
        "jobs"@
    } else {
        spec_jobs_render(spec_jobs_scan(vs, 0, spec_jobs_init()))
    }
}

/// The filter expression for one job specification, executably.
fn jobs_filter(sp: &String) -> (r: String)
    ensures
        r@ == spec_jobs_filter(sp@),
{
    let n = sp.as_str().unicode_len();
    proof {
        reveal_strlit("%");
    }
    if starts_with(sp.as_str(), "%") {
        let id = sp.as_str().substring_char(1, n);
        proof {
            assert(id@ =~= sp@.skip(1));
        }
        if str_eq(id, "%") || str_eq(id, "+") {
            "job_id == \"current\"".to_owned()
        } else if str_eq(id, "-") {
            "job_id == \"previous\"".to_owned()
        } else {
            let mut out: String = "job_id == \"".to_owned();
            out.append(id);
            out.append("\"");
            out
        }
    } else {
        let mut out: String = "job_id == \"".to_owned();
        out.append(sp.as_str());
        out.append("\"");
        out
    }
}

/// Scan the arguments of `jobs` into its flag state.
#[verifier::loop_isolation(false)]
#[verifier::rlimit(60)]
fn jobs_scan(args: &[String]) -> (r: (bool, bool, bool, bool, Vec<String>))
    ensures
        spec_jobs_scan(views(args@), 0, spec_jobs_init()) == (JobsScan {
            pids: r.0,
            long: r.1,
            running: r.2,
            stopped: r.3,
            specs: views(r.4@),
        }),
{
    let ghost vs = views(args@);
    let mut pids = false;
    let mut long = false;
    let mut running = false;
    let mut stopped = false;
    let mut specs: Vec<String> = Vec::new();
    proof {
        assert(views(specs@) =~= Seq::<Seq<char>>::empty());
    }
    let mut i: usize = 0;
    while i < args.len()
        invariant
            i <= args@.len(),
            spec_jobs_scan(vs, 0, spec_jobs_init()) == spec_jobs_scan(
                vs,
                i as int,
                JobsScan {
                    pids: pids,
                    long: long,
                    running: running,
                    stopped: stopped,
                    specs: views(specs@),
                },
            ),
        decreases args@.len() - i,
    {
        let a = args[i].as_str();
        proof {
            assert(vs[i as int] == args@[i as int]@);
        }
        if str_eq(a, "-l") {
            long = true;
        } else if str_eq(a, "-p") {
            pids = true;
        } else if str_eq(a, "-r") {
            running = true;
        } else if str_eq(a, "-s") {
            stopped = true;
        } else if str_eq(a, "-n") || str_eq(a, "-x") {
        } else if starts_with(a, "%") {
            let ghost prev = specs@;
            specs.push(args[i].clone());
            proof {
                assert(views(specs@) =~= views(prev).push(args@[i as int]@));
            }
        } else if parse_i32(a).is_some() {
            let ghost prev = specs@;
            let mut sp: String = "%".to_owned();
            sp.append(a);
            specs.push(sp);
            proof {
                assert(views(specs@) =~= views(prev).push("%"@ + args@[i as int]@));
            }
        }
        i = i + 1;
    }
    (pids, long, running, stopped, specs)
}

impl BuiltinConverter for JobsBuiltinConverter {
    open spec fn spec_convert(&self, vs: Seq<Seq<char>>) -> Seq<char> {
        spec_convert_jobs(vs)
    }

    open spec fn spec_name(&self) -> Seq<char> {
        "jobs"@
    }

    #[verifier::loop_isolation(false)]
    fn convert(&self, args: &[String]) -> (r: Result<String, ConvertError>) {
        let ghost vs = views(args@);
        if args.len() == 0 {
            return Ok("jobs".to_owned());
        }
        let (pids, long, running, stopped, specs) = jobs_scan(args);
        let ghost st = spec_jobs_scan(vs, 0, spec_jobs_init());
        let mut out: String = "jobs".to_owned();
        if pids {
            out.append(" | get pid");
        } else if long {
            out.append(" | select job_id pid command status");
        }
        if running && !stopped {
            out.append(" | where status == \"running\"");
        } else if stopped && !running {
            out.append(" | where status == \"stopped\"");
        }
        if specs.len() > 0 {
            let mut filters: Vec<String> = Vec::new();
            let ghost gspecs = views(specs@);
            let mut k: usize = 0;
            while k < specs.len()
                invariant
                    k <= specs@.len(),
                    gspecs == views(specs@),
                    views(filters@) =~= gspecs.take(k as int).map_values(
                        |sp: Seq<char>| spec_jobs_filter(sp),
                    ),
                decreases specs@.len() - k,
            {
                let ghost prev = filters@;
                filters.push(jobs_filter(&specs[k]));
                proof {
                    assert(gspecs[k as int] == specs@[k as int]@);
                    assert forall|j: int| 0 <= j < k + 1 implies views(filters@)[j] == gspecs.take(
                        k as int + 1,
                    ).map_values(|sp: Seq<char>| spec_jobs_filter(sp))[j] by {
                        assert(views(filters@)[j] == filters@[j]@);
                        if j < k {
                            assert(views(prev)[j] == prev[j]@);
                            assert(gspecs.take(k as int)[j] == gspecs[j]);
                        }
                    }
                    assert(views(filters@) =~= gspecs.take(k as int + 1).map_values(
                        |sp: Seq<char>| spec_jobs_filter(sp),
                    ));
                }
                k = k + 1;
            }
            proof {
                assert(gspecs.take(specs@.len() as int) =~= gspecs);
            }
            out.append(" | where (");
            let joined = join_with(&filters, " or ");
            out.append(joined.as_str());
            out.append(")");
        }
        Ok(out)
    }

    fn builtin_name(&self) -> (r: &'static str) {
        "jobs"
    }

    fn description(&self) -> &'static str {
        "Converts jobs builtin commands to target job management commands"
    }
}

} // verus!
