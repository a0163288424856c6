//! `date` converter: maps `date` to target date operations.

use super::CommandConverter;
use crate::plugin::ConvertError;
use crate::quoting::{quote_literal, spec_quote_literal};
use crate::text::{
    contains_sub, spec_find_sub, spec_starts_with, starts_with, str_eq, views,
};
use vstd::prelude::*;

verus! {

/// Converter for the `date` command.
pub struct DateConverter;

/// The flag state gathered while scanning `date` arguments; `--help` and
/// `--version` short-circuit.
pub struct DateScan {
    pub fmt: Seq<char>,
    pub set_date: Seq<char>,
    pub utc: bool,
    pub iso: bool,
    pub rfc: bool,
    pub reference: Seq<char>,
}

pub open spec fn spec_date_init() -> DateScan {
    DateScan {
        fmt: Seq::empty(),
        set_date: Seq::empty(),
        utc: false,
        iso: false,
        rfc: false,
        reference: Seq::empty(),
    }
}

pub open spec fn spec_date_scan(vs: Seq<Seq<char>>, i: int, st: DateScan) -> (DateScan, Option<
    Seq<char>,
>)
    decreases vs.len() - i,
{
    if i < 0 || i >= vs.len() {
        (st, None)
    } else if vs[i] == "-d"@ || vs[i] == "--date"@ || vs[i] == "-s"@ || vs[i] == "--set"@ {
        if i + 1 < vs.len() {
            spec_date_scan(vs, i + 2, DateScan { set_date: vs[i + 1], ..st })
        } else {
            spec_date_scan(vs, i + 1, st)
        }
    } else if vs[i] == "-f"@ || vs[i] == "--file"@ || vs[i] == "-r"@ || vs[i] == "--reference"@ {
        if i + 1 < vs.len() {
            if vs[i] == "-r"@ || vs[i] == "--reference"@ {
                spec_date_scan(vs, i + 2, DateScan { reference: vs[i + 1], ..st })
            } else {
                spec_date_scan(vs, i + 2, st)
            }
        } else {
            spec_date_scan(vs, i + 1, st)
        }
    } else if vs[i] == "-R"@ || vs[i] == "--rfc-2822"@ {
        spec_date_scan(vs, i + 1, DateScan { fmt: "%a, %d %b %Y %H:%M:%S %z"@, ..st })
    } else if vs[i] == "-I"@ || vs[i] == "--iso-8601"@ {
        spec_date_scan(vs, i + 1, DateScan { iso: true, ..st })
    } else if vs[i] == "--rfc-3339"@ {
        if i + 1 < vs.len() {
            if vs[i + 1] == "date"@ {
                spec_date_scan(vs, i + 2, DateScan { fmt: "%Y-%m-%d"@, ..st })
            } else if vs[i + 1] == "seconds"@ {
                spec_date_scan(vs, i + 2, DateScan { fmt: "%Y-%m-%d %H:%M:%S%z"@, ..st })
            } else if vs[i + 1] == "ns"@ {
                spec_date_scan(vs, i + 2, DateScan { fmt: "%Y-%m-%d %H:%M:%S.%f%z"@, ..st })
            } else {
                spec_date_scan(vs, i + 2, DateScan { rfc: true, ..st })
            }
        } else {
            spec_date_scan(vs, i + 1, DateScan { rfc: true, ..st })
        }
    } else if vs[i] == "-u"@ || vs[i] == "--utc"@ || vs[i] == "--universal"@ {
        spec_date_scan(vs, i + 1, DateScan { utc: true, ..st })
    } else if vs[i] == "--help"@ {
        (st, Some("date --help"@))
    } else if vs[i] == "--version"@ {
        (st, Some("date --version"@))
    } else if spec_starts_with(vs[i], "+"@) {
        spec_date_scan(vs, i + 1, DateScan { fmt: vs[i].skip(1), ..st })
    } else if st.set_date.len() == 0 {
        spec_date_scan(vs, i + 1, DateScan { set_date: vs[i], ..st })
    } else {
        spec_date_scan(vs, i + 1, st)
    }
}

/// The date source chosen by the scanned flags.
pub open spec fn spec_date_source(st: DateScan) -> Seq<char> {
    if st.reference.len() > 0 {
        "ls "@ + spec_quote_literal(st.reference) + " | get modified | first"@
    } else if st.set_date.len() > 0 {
        if spec_find_sub(st.set_date, "now"@) >= 0 {
            "date now"@
        } else if spec_find_sub(st.set_date, "today"@) >= 0 {
            "date now | date to-record | update hour 0 | update minute 0 | update second 0 | date from-record"@
        } else if spec_find_sub(st.set_date, "yesterday"@) >= 0 {
            "date now | date to-record | update day ($it.day - 1) | update hour 0 | update minute 0 | update second 0 | date from-record"@
        } else if spec_find_sub(st.set_date, "tomorrow"@) >= 0 {
            "date now | date to-record | update day ($it.day + 1) | update hour 0 | update minute 0 | update second 0 | date from-record"@
        } else {
            spec_quote_literal(st.set_date) + " | into datetime"@
        }
    } else {
        "date now"@
    }
}

/// The exact text produced for `date` with the given arguments.
pub open spec fn spec_convert_date(vs: Seq<Seq<char>>) -> Seq<char> {
    if vs.len() == 0 {
        "date now"@
    } else {
        let (st, early) = spec_date_scan(vs, 0, spec_date_init());
        match early {
            Some(text) => text,
            None => spec_date_source(st) + (if st.utc {
                " | date to-timezone UTC"@
            } else {
                Seq::<char>::empty()
            }) + (if st.fmt.len() > 0 {
                " | format date "@ + spec_quote_literal(st.fmt)
            } else if st.iso {
                " | format date \"%Y-%m-%dT%H:%M:%S%z\""@
            } else if st.rfc {
                " | format date \"%Y-%m-%d %H:%M:%S%z\""@
            } else {
                Seq::<char>::empty()
            }),
        }
    }
}

/// Maps a strftime-style format to the target's date format.  The target
/// accepts the same specifiers, so every specifier maps to itself and the
/// text passes through unchanged.
pub fn convert_strftime_to_nu_format(format: &str) -> (r: String)
    ensures
        r@ == format@,
{
    format.to_owned()
}

/// Scan the arguments of `date` into its flag state.
#[verifier::loop_isolation(false)]
#[verifier::rlimit(100)]
fn date_scan(args: &[String]) -> (r: (String, String, bool, bool, bool, String, Option<String>))
    ensures
        ({
            let (gst, ge) = spec_date_scan(views(args@), 0, spec_date_init());
            gst == (DateScan {
                fmt: r.0@,
                set_date: r.1@,
                utc: r.2,
                iso: r.3,
                rfc: r.4,
                reference: r.5@,
            }) && match (ge, r.6) {
                (Some(t), Some(s)) => t == s@,
                (None, None) => true,
                _ => false,
            }
        }),
{
    let ghost vs = views(args@);
    let mut fmt: String = String::new();
    let mut set_date: String = String::new();
    let mut utc = false;
    let mut iso = false;
    let mut rfc = false;
    let mut reference: String = String::new();
    proof {
        assert(fmt@ =~= Seq::<char>::empty());
        assert(set_date@ =~= Seq::<char>::empty());
        assert(reference@ =~= Seq::<char>::empty());
    }
    let mut i: usize = 0;
    while i < args.len()
        invariant
            i <= args@.len(),
            spec_date_scan(vs, 0, spec_date_init()) == spec_date_scan(
                vs,
                i as int,
                DateScan {
                    fmt: fmt@,
                    set_date: set_date@,
                    utc: utc,
                    iso: iso,
                    rfc: rfc,
                    reference: reference@,
                },
            ),
        decreases args@.len() - i,
    {
        let a = args[i].as_str();
        let n = a.unicode_len();
        proof {
            assert(vs[i as int] == args@[i as int]@);
            if i + 1 < args.len() {
                assert(vs[i as int + 1] == args@[i as int + 1]@);
            }
        }
        if str_eq(a, "-d") || str_eq(a, "--date") || str_eq(a, "-s") || str_eq(a, "--set") {
            if i + 1 < args.len() {
                set_date = args[i + 1].clone();
                i = i + 2;
            } else {
                i = i + 1;
            }
        } else if str_eq(a, "-f") || str_eq(a, "--file") || str_eq(a, "-r") || str_eq(
            a,
            "--reference",
        ) {
            if i + 1 < args.len() {
                if str_eq(a, "-r") || str_eq(a, "--reference") {
                    reference = args[i + 1].clone();
                }
                i = i + 2;
            } else {
                i = i + 1;
            }
        } else if str_eq(a, "-R") || str_eq(a, "--rfc-2822") {
            fmt = "%a, %d %b %Y %H:%M:%S %z".to_owned();
            i = i + 1;
        } else if str_eq(a, "-I") || str_eq(a, "--iso-8601") {
            iso = true;
            i = i + 1;
        } else if str_eq(a, "--rfc-3339") {
            if i + 1 < args.len() {
                let v = args[i + 1].as_str();
                if str_eq(v, "date") {
                    fmt = "%Y-%m-%d".to_owned();
                } else if str_eq(v, "seconds") {
                    fmt = "%Y-%m-%d %H:%M:%S%z".to_owned();
                } else if str_eq(v, "ns") {
                    fmt = "%Y-%m-%d %H:%M:%S.%f%z".to_owned();
                } else {
                    rfc = true;
                }
                i = i + 2;
            } else {
                rfc = true;
                i = i + 1;
            }
        } else if str_eq(a, "-u") || str_eq(a, "--utc") || str_eq(a, "--universal") {
            utc = true;
            i = i + 1;
        } else if str_eq(a, "--help") {
            return (fmt, set_date, utc, iso, rfc, reference, Some("date --help".to_owned()));
        } else if str_eq(a, "--version") {
            return (fmt, set_date, utc, iso, rfc, reference, Some("date --version".to_owned()));
        } else if starts_with(a, "+") {
            proof {
                reveal_strlit("+");
            }
            fmt = a.substring_char(1, n).to_owned();
            proof {
                assert(fmt@ =~= args@[i as int]@.skip(1));
            }
            i = i + 1;
        } else if set_date.as_str().unicode_len() == 0 {
            set_date = args[i].clone();
            i = i + 1;
        } else {
            i = i + 1;
        }
    }
    (fmt, set_date, utc, iso, rfc, reference, None)
}

impl CommandConverter for DateConverter {
    open spec fn spec_convert(&self, vs: Seq<Seq<char>>) -> Seq<char> {
        spec_convert_date(vs)
    }

    open spec fn spec_name(&self) -> Seq<char> {
        "date"@
    }

    #[verifier::loop_isolation(false)]
    #[verifier::rlimit(100)]
    fn convert(&self, args: &[String]) -> (r: Result<String, ConvertError>) {
        let ghost vs = views(args@);
        if args.len() == 0 {
            return Ok("date now".to_owned());
        }
        let (fmt, set_date, utc, iso, rfc, reference, early) = date_scan(args);
        match early {
            Some(t) => Ok(t),
            None => {
                let ghost st = spec_date_scan(vs, 0, spec_date_init()).0;
                let mut out: String;
                if reference.as_str().unicode_len() > 0 {
                    out = "ls ".to_owned();
                    out.append(quote_literal(reference.as_str()).as_str());
                    out.append(" | get modified | first");
                } else if set_date.as_str().unicode_len() > 0 {
                    if contains_sub(set_date.as_str(), "now") {
                        out = "date now".to_owned();
                    } else if contains_sub(set_date.as_str(), "today") {
                        out =
                        "date now | date to-record | update hour 0 | update minute 0 | update second 0 | date from-record".to_owned();
                    } else if contains_sub(set_date.as_str(), "yesterday") {
                        out =
                        "date now | date to-record | update day ($it.day - 1) | update hour 0 | update minute 0 | update second 0 | date from-record".to_owned();
                    } else if contains_sub(set_date.as_str(), "tomorrow") {
                        out =
                        "date now | date to-record | update day ($it.day + 1) | update hour 0 | update minute 0 | update second 0 | date from-record".to_owned();
                    } else {
                        out = quote_literal(set_date.as_str());
                        out.append(" | into datetime");
                    }
                } else {
                    out = "date now".to_owned();
                }
                if utc {
                    out.append(" | date to-timezone UTC");
                }
                if fmt.as_str().unicode_len() > 0 {
                    out.append(" | format date ");
                    let nu_fmt = convert_strftime_to_nu_format(fmt.as_str());
                    out.append(quote_literal(nu_fmt.as_str()).as_str());
                } else if iso {
                    out.append(" | format date \"%Y-%m-%dT%H:%M:%S%z\"");
                } else if rfc {
                    out.append(" | format date \"%Y-%m-%d %H:%M:%S%z\"");
                }
                Ok(out)
            },
        }
    }

    fn command_name(&self) -> (r: &'static str) {
        "date"
    }

    fn description(&self) -> &'static str {
        "Converts date commands to target date operations"
    }
}

} // verus!
