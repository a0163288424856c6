//! Pure text passes around the engine: the indentation post-pass and the
//! best-effort reverse translation.

use crate::text::{
    ends_with, lines_of, replace_all, spec_ends_with, spec_lines, spec_replace_all,
    spec_starts_with, spec_trim, starts_with, trim, views,
};
use vstd::prelude::*;

verus! {

/// The indentation text for one level: two spaces per level.
pub open spec fn spec_indent(level: int) -> Seq<char>
    decreases level,
{
    if level <= 0 {
        Seq::empty()
    } else {
        "  "@ + spec_indent(level - 1)
    }
}

/// The formatted lines from `lines[i]` on, given the current indent level.
pub open spec fn spec_format_from(lines: Seq<Seq<char>>, i: int, level: int) -> Seq<char>
    decreases lines.len() - i,
{
    if i < 0 || i >= lines.len() {
        Seq::empty()
    } else {
        let t = spec_trim(lines[i]);
        let lv = if t.len() > 0 && (t[0] == '}' || t[0] == ']') {
            if level > 0 {
                level - 1
            } else {
                0
            }
        } else {
            level
        };
        let this_line: Seq<char> = if t.len() > 0 {
            spec_indent(lv) + t + "\n"@
        } else {
            "\n"@
        };
        let next = if t.len() > 0 && (t[t.len() - 1] == '{' || t[t.len() - 1] == '[') {
            lv + 1
        } else {
            lv
        };
        this_line + spec_format_from(lines, i + 1, next)
    }
}

/// Re-indent generated text: a closing brace or bracket dedents its own
/// line, an opening one indents what follows.
#[verifier::loop_isolation(false)]
#[verifier::rlimit(100)]
pub fn format_nu_script(script: &str) -> (r: String)
    ensures
        r@ == spec_format_from(spec_lines(script@), 0, 0),
{
    let lines = lines_of(script);
    let ghost glines = views(lines@);
    let mut out = String::new();
    let mut level: usize = 0;
    let mut i: usize = 0;
    proof {
        assert(spec_indent(0) =~= Seq::<char>::empty());
    }
    while i < lines.len()
        invariant
            i <= lines@.len(),
            level <= i,
            glines == views(lines@),
            out@ + spec_format_from(glines, i as int, level as int) == spec_format_from(
                glines,
                0,
                0,
            ),
        decreases lines@.len() - i,
    {
        proof {
            assert(glines[i as int] == lines@[i as int]@);
        }
        let t = trim(lines[i].as_str());
        let tn = t.unicode_len();
        if tn > 0 && {
            let c0 = t.get_char(0);
            c0 == '}' || c0 == ']'
        } {
            if level > 0 {
                level = level - 1;
            }
        }
        if tn > 0 {
            let ind = indent_text(level);
            out.append(ind.as_str());
            out.append(t);
        }
        out.append("\n");
        if tn > 0 && {
            let cl = t.get_char(tn - 1);
            cl == '{' || cl == '['
        } {
            level = level + 1;
        }
        i = i + 1;
    }
    proof {
        assert(spec_format_from(glines, lines@.len() as int, level as int)
            =~= Seq::<char>::empty());
        assert(out@ + Seq::<char>::empty() =~= out@);
    }
    out
}

/// Two spaces per indent level.
#[verifier::loop_isolation(false)]
fn indent_text(level: usize) -> (r: String)
    ensures
        r@ == spec_indent(level as int),
{
    let mut out = String::new();
    let mut k: usize = 0;
    proof {
        assert(spec_indent(0) =~= Seq::<char>::empty());
    }
    while k < level
        invariant
            k <= level,
            out@ + spec_indent(level - k) == spec_indent(level as int),
        decreases level - k,
    {
        out.append("  ");
        k = k + 1;
    }
    proof {
        assert(spec_indent(0) =~= Seq::<char>::empty());
        assert(out@ + Seq::<char>::empty() =~= out@);
    }
    out
}

/// Best-effort reverse translation of target text back to POSIX-flavoured
/// text: three literal substring replacements, not a parser.
pub fn basic_nu_to_posix_conversion(nu_script: &str) -> (r: String)
    ensures
        r@ == spec_replace_all(
            spec_replace_all(
                spec_replace_all(nu_script@, "print "@, "echo "@),
                " | where "@,
                " | grep "@,
            ),
            " =~ "@,
            " | grep "@,
        ),
{
    let a = replace_all(nu_script, "print ", "echo ");
    let b = replace_all(a.as_str(), " | where ", " | grep ");
    let c = replace_all(b.as_str(), " =~ ", " | grep ");
    c
}

} // verus!
