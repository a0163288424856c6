//! Conversion table for POSIX shell builtin commands.
//!
//! Builtins are commands implemented inside the shell itself (`cd`, `exit`,
//! `test`, ...).  Each converter maps one builtin's argument grammar to
//! target syntax; the registry collects them behind an exact-name lookup and
//! resolves the `[` alias for `test`.

pub mod cd;
pub mod read;
pub mod exit;
pub mod jobs;
pub mod kill;
pub mod false_builtin;
pub mod pwd;
pub mod test;
pub mod true_builtin;

use crate::plugin::ConvertError;
use crate::quoting::{format_args, quote_word, spec_format_args, spec_quote_word};
use crate::text::views;
use vstd::prelude::*;

verus! {

/// A converter for one shell builtin.  `spec_convert` states exactly what
/// text the converter produces for every argument vector.
pub trait BuiltinConverter {
    /// The text produced for the given argument views.
    spec fn spec_convert(&self, vs: Seq<Seq<char>>) -> Seq<char>;

    /// The view of the builtin name this converter handles.
    spec fn spec_name(&self) -> Seq<char>;

    /// Convert a builtin command with its arguments to target syntax.
    fn convert(&self, args: &[String]) -> (r: Result<String, ConvertError>)
        ensures
            r is Ok,
            r->Ok_0@ == self.spec_convert(views(args@)),
    ;

    /// The builtin name this converter handles.
    fn builtin_name(&self) -> (r: &'static str)
        ensures
            r@ == self.spec_name(),
    ;

    /// A short human-readable description of the converter.
    fn description(&self) -> &'static str;
}

/// Common helpers shared by the builtin converters.
pub struct BaseBuiltinConverter;

impl BaseBuiltinConverter {
    /// Quote an argument if it contains spaces or special characters.
    pub fn quote_arg(&self, arg: &str) -> (r: String)
        ensures
            r@ == spec_quote_word(arg@),
    {
        quote_word(arg)
    }

    /// Format a list of arguments, quoting each as needed.
    pub fn format_args(&self, args: &[String]) -> (r: String)
        ensures
            r@ == spec_format_args(views(args@)),
    {
        format_args(args)
    }
}

} // verus!

use crate::plugin::builtin::cd::CdBuiltinConverter;
use crate::plugin::builtin::exit::ExitBuiltinConverter;
use crate::plugin::builtin::false_builtin::FalseBuiltinConverter;
use crate::plugin::builtin::jobs::JobsBuiltinConverter;
use crate::plugin::builtin::kill::KillBuiltinConverter;
use crate::plugin::builtin::pwd::PwdBuiltinConverter;
use crate::plugin::builtin::read::ReadBuiltinConverter;
use crate::plugin::builtin::test::TestBuiltinConverter;
use crate::plugin::builtin::true_builtin::TrueBuiltinConverter;
use crate::text::str_eq;

verus! {

/// One entry of the builtin table: a tagged builtin converter.
pub enum BuiltinEntry {
    Cd(CdBuiltinConverter),
    Exit(ExitBuiltinConverter),
    False(FalseBuiltinConverter),
    Jobs(JobsBuiltinConverter),
    Kill(KillBuiltinConverter),
    Pwd(PwdBuiltinConverter),
    Read(ReadBuiltinConverter),
    Test(TestBuiltinConverter),
    True(TrueBuiltinConverter),
}

/// The name handled by a builtin table entry.
pub open spec fn spec_entry_name(e: BuiltinEntry) -> Seq<char> {
    match e {
        BuiltinEntry::Cd(c) => c.spec_name(),
        BuiltinEntry::Exit(c) => c.spec_name(),
        BuiltinEntry::False(c) => c.spec_name(),
        BuiltinEntry::Jobs(c) => c.spec_name(),
        BuiltinEntry::Kill(c) => c.spec_name(),
        BuiltinEntry::Pwd(c) => c.spec_name(),
        BuiltinEntry::Read(c) => c.spec_name(),
        BuiltinEntry::Test(c) => c.spec_name(),
        BuiltinEntry::True(c) => c.spec_name(),
    }
}

/// The text a builtin table entry produces for the given argument views.
pub open spec fn spec_entry_convert(e: BuiltinEntry, vs: Seq<Seq<char>>) -> Seq<char> {
    match e {
        BuiltinEntry::Cd(c) => c.spec_convert(vs),
        BuiltinEntry::Exit(c) => c.spec_convert(vs),
        BuiltinEntry::False(c) => c.spec_convert(vs),
        BuiltinEntry::Jobs(c) => c.spec_convert(vs),
        BuiltinEntry::Kill(c) => c.spec_convert(vs),
        BuiltinEntry::Pwd(c) => c.spec_convert(vs),
        BuiltinEntry::Read(c) => c.spec_convert(vs),
        BuiltinEntry::Test(c) => c.spec_convert(vs),
        BuiltinEntry::True(c) => c.spec_convert(vs),
    }
}

impl BuiltinEntry {
    /// Convert through the entry's converter.
    pub fn convert(&self, args: &[String]) -> (r: Result<String, ConvertError>)
        ensures
            r is Ok,
            r->Ok_0@ == spec_entry_convert(*self, views(args@)),
    {
        match self {
            BuiltinEntry::Cd(c) => c.convert(args),
            BuiltinEntry::Exit(c) => c.convert(args),
            BuiltinEntry::False(c) => c.convert(args),
            BuiltinEntry::Jobs(c) => c.convert(args),
            BuiltinEntry::Kill(c) => c.convert(args),
            BuiltinEntry::Pwd(c) => c.convert(args),
            BuiltinEntry::Read(c) => c.convert(args),
            BuiltinEntry::Test(c) => c.convert(args),
            BuiltinEntry::True(c) => c.convert(args),
        }
    }

    /// The entry's builtin name.
    pub fn builtin_name(&self) -> (r: &'static str)
        ensures
            r@ == spec_entry_name(*self),
    {
        match self {
            BuiltinEntry::Cd(c) => c.builtin_name(),
            BuiltinEntry::Exit(c) => c.builtin_name(),
            BuiltinEntry::False(c) => c.builtin_name(),
            BuiltinEntry::Jobs(c) => c.builtin_name(),
            BuiltinEntry::Kill(c) => c.builtin_name(),
            BuiltinEntry::Pwd(c) => c.builtin_name(),
            BuiltinEntry::Read(c) => c.builtin_name(),
            BuiltinEntry::Test(c) => c.builtin_name(),
            BuiltinEntry::True(c) => c.builtin_name(),
        }
    }

    /// The entry's description.
    pub fn description(&self) -> &'static str {
        match self {
            BuiltinEntry::Cd(c) => c.description(),
            BuiltinEntry::Exit(c) => c.description(),
            BuiltinEntry::False(c) => c.description(),
            BuiltinEntry::Jobs(c) => c.description(),
            BuiltinEntry::Kill(c) => c.description(),
            BuiltinEntry::Pwd(c) => c.description(),
            BuiltinEntry::Read(c) => c.description(),
            BuiltinEntry::Test(c) => c.description(),
            BuiltinEntry::True(c) => c.description(),
        }
    }
}

/// The standard builtin table, in registration order.
pub open spec fn spec_builtin_table() -> Seq<BuiltinEntry> {
    seq![
        BuiltinEntry::Cd(CdBuiltinConverter),
        BuiltinEntry::Exit(ExitBuiltinConverter),
        BuiltinEntry::False(FalseBuiltinConverter),
        BuiltinEntry::Jobs(JobsBuiltinConverter),
        BuiltinEntry::Kill(KillBuiltinConverter),
        BuiltinEntry::Pwd(PwdBuiltinConverter),
        BuiltinEntry::Read(ReadBuiltinConverter),
        BuiltinEntry::Test(TestBuiltinConverter),
        BuiltinEntry::True(TrueBuiltinConverter),
    ]
}

/// The first registered converter for `name`, if any.
pub open spec fn spec_builtin_find(entries: Seq<BuiltinEntry>, name: Seq<char>, i: int) -> Option<
    BuiltinEntry,
>
    decreases entries.len() - i,
{
    if i < 0 || i >= entries.len() {
        None
    } else if spec_entry_name(entries[i]) == name {
        Some(entries[i])
    } else {
        spec_builtin_find(entries, name, i + 1)
    }
}

/// Passthrough rendering for a name with no registered converter.
pub open spec fn spec_builtin_passthrough(name: Seq<char>, vs: Seq<Seq<char>>) -> Seq<char> {
    if vs.len() == 0 {
        name
    } else {
        name + " "@ + spec_format_args(vs)
    }
}

/// The text produced by the registry for a builtin invocation: `[` is an
/// alias for `test`, a registered converter is consulted by exact name, and
/// anything else passes through with quoted arguments.
pub open spec fn spec_convert_builtin(
    entries: Seq<BuiltinEntry>,
    name: Seq<char>,
    vs: Seq<Seq<char>>,
) -> Seq<char> {
    let actual = if name == "["@ {
        "test"@
    } else {
        name
    };
    match spec_builtin_find(entries, actual, 0) {
        Some(e) => spec_entry_convert(e, vs),
        None => spec_builtin_passthrough(name, vs),
    }
}

/// Registry of all builtin converters.
pub struct BuiltinRegistry {
    converters: Vec<BuiltinEntry>,
}

impl BuiltinRegistry {
    /// The registered entries, in order.
    pub closed spec fn entries(&self) -> Seq<BuiltinEntry> {
        self.converters@
    }

    /// Create a new builtin registry with all standard converters.
    pub fn new() -> (r: Self)
        ensures
            r.entries() == spec_builtin_table(),
    {
        let mut registry = BuiltinRegistry { converters: Vec::new() };
        registry.register(BuiltinEntry::Cd(CdBuiltinConverter));
        registry.register(BuiltinEntry::Exit(ExitBuiltinConverter));
        registry.register(BuiltinEntry::False(FalseBuiltinConverter));
        registry.register(BuiltinEntry::Jobs(JobsBuiltinConverter));
        registry.register(BuiltinEntry::Kill(KillBuiltinConverter));
        registry.register(BuiltinEntry::Pwd(PwdBuiltinConverter));
        registry.register(BuiltinEntry::Read(ReadBuiltinConverter));
        registry.register(BuiltinEntry::Test(TestBuiltinConverter));
        registry.register(BuiltinEntry::True(TrueBuiltinConverter));
        proof {
            assert(registry.entries() =~= spec_builtin_table());
        }
        registry
    }

    /// Register a builtin converter.
    pub fn register(&mut self, converter: BuiltinEntry)
        ensures
            final(self).entries() == old(self).entries().push(converter),
    {
        self.converters.push(converter);
    }

    /// Find the converter for the given builtin name.
    #[verifier::loop_isolation(false)]
    pub fn find_converter(&self, builtin: &str) -> (r: Option<&BuiltinEntry>)
        ensures
            match r {
                Some(e) => spec_builtin_find(self.entries(), builtin@, 0) == Some(*e),
                None => spec_builtin_find(self.entries(), builtin@, 0) is None,
            },
    {
        let mut i: usize = 0;
        while i < self.converters.len()
            invariant
                i <= self.converters@.len(),
                spec_builtin_find(self.entries(), builtin@, 0) == spec_builtin_find(
                    self.entries(),
                    builtin@,
                    i as int,
                ),
            decreases self.converters@.len() - i,
        {
            let e = &self.converters[i];
            if str_eq(e.builtin_name(), builtin) {
                return Some(e);
            }
            i = i + 1;
        }
        None
    }

    /// All registered builtin names, in order.
    #[verifier::loop_isolation(false)]
    pub fn get_builtin_names(&self) -> (r: Vec<&'static str>)
        ensures
            r@.len() == self.entries().len(),
            forall|k: int| 0 <= k < r@.len() ==> (#[trigger] r@[k])@ == spec_entry_name(
                self.entries()[k],
            ),
    {
        let mut names: Vec<&'static str> = Vec::new();
        let mut i: usize = 0;
        while i < self.converters.len()
            invariant
                i <= self.converters@.len(),
                names@.len() == i,
                forall|k: int| 0 <= k < i ==> (#[trigger] names@[k])@ == spec_entry_name(
                    self.entries()[k],
                ),
            decreases self.converters@.len() - i,
        {
            names.push(self.converters[i].builtin_name());
            i = i + 1;
        }
        names
    }

    /// Convert a builtin invocation, treating `[` as an alias for `test` and
    /// passing unknown names through with quoted arguments.
    pub fn convert_builtin(&self, name: &str, args: &[String]) -> (r: Result<String, ConvertError>)
        ensures
            r is Ok,
            r->Ok_0@ == spec_convert_builtin(self.entries(), name@, views(args@)),
    {
        let actual: &str = if str_eq(name, "[") {
            "test"
        } else {
            name
        };
        match self.find_converter(actual) {
            Some(e) => e.convert(args),
            None => {
                if args.len() == 0 {
                    Ok(name.to_owned())
                } else {
                    let base = BaseBuiltinConverter;
                    let mut out: String = name.to_owned();
                    out.append(" ");
                    out.append(base.format_args(args).as_str());
                    Ok(out)
                }
            },
        }
    }
}

impl Default for BuiltinRegistry {
    fn default() -> (r: Self)
        ensures
            r.entries() == spec_builtin_table(),
    {
        Self::new()
    }
}

} // verus!
