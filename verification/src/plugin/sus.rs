//! Conversion table for well-known external utilities.
//!
//! Each converter maps one utility's flag and argument grammar to target
//! syntax.  The registry collects them behind a linear-scan, exact-name
//! lookup.

pub mod awk;
pub mod basename;
pub mod cat;
pub mod cd;
pub mod chmod;
pub mod chown;
pub mod cp;
pub mod cut;
pub mod date;
pub mod dirname;
pub mod echo;
pub mod find;
pub mod grep;
pub mod head;
pub mod ls;
pub mod mkdir;
pub mod mv;
pub mod ps;
pub mod realpath;
pub mod rm;
pub mod rmdir;
pub mod sed;
pub mod seq;
pub mod sort;
pub mod stat;
pub mod tail;
pub mod tee;
pub mod uniq;
pub mod wc;
pub mod which;
pub mod whoami;

use crate::plugin::ConvertError;
use crate::quoting::{format_args, quote_word, spec_format_args, spec_quote_word};
use crate::text::views;
use vstd::prelude::*;

verus! {

/// A converter for one utility.  `spec_convert` states exactly what text the
/// converter produces for every argument vector.
pub trait CommandConverter {
    /// The text produced for the given argument views.
    spec fn spec_convert(&self, vs: Seq<Seq<char>>) -> Seq<char>;

    /// The view of the utility name this converter handles.
    spec fn spec_name(&self) -> Seq<char>;

    /// Convert a command with its arguments to target syntax.
    fn convert(&self, args: &[String]) -> (r: Result<String, ConvertError>)
        ensures
            r is Ok,
            r->Ok_0@ == self.spec_convert(views(args@)),
    ;

    /// The utility name this converter handles.
    fn command_name(&self) -> (r: &'static str)
        ensures
            r@ == self.spec_name(),
    ;

    /// A short human-readable description of the converter.
    fn description(&self) -> &'static str;
}

/// Common helpers shared by the utility converters.
pub struct BaseConverter;

impl BaseConverter {
    /// Quote an argument if it contains spaces or special characters.
    pub fn quote_arg(&self, arg: &str) -> (r: String)
        ensures
            r@ == spec_quote_word(arg@),
    {
        quote_word(arg)
    }

    /// Format a list of arguments, quoting each as needed.
    pub fn format_args(&self, args: &[String]) -> (r: String)
        ensures
            r@ == spec_format_args(views(args@)),
    {
        format_args(args)
    }
}

} // verus!

use crate::plugin::sus::basename::BasenameConverter;
use crate::plugin::sus::cat::CatConverter;
use crate::plugin::sus::cut::CutConverter;
use crate::plugin::sus::date::DateConverter;
use crate::plugin::sus::dirname::DirnameConverter;
use crate::plugin::sus::ps::PsConverter;
use crate::plugin::sus::realpath::RealpathConverter;
use crate::plugin::sus::seq::SeqConverter;
use crate::plugin::sus::stat::StatConverter;
use crate::plugin::sus::chmod::ChmodConverter;
use crate::plugin::sus::chown::ChownConverter;
use crate::plugin::sus::cp::CpConverter;
use crate::plugin::sus::echo::EchoConverter;
use crate::plugin::sus::find::FindConverter;
use crate::plugin::sus::grep::GrepConverter;
use crate::plugin::sus::head::HeadConverter;
use crate::plugin::sus::ls::LsConverter;
use crate::plugin::sus::mkdir::MkdirConverter;
use crate::plugin::sus::mv::MvConverter;
use crate::plugin::sus::rm::RmConverter;
use crate::plugin::sus::rmdir::RmdirConverter;
use crate::plugin::sus::sed::SedConverter;
use crate::plugin::sus::sort::SortConverter;
use crate::plugin::sus::tail::TailConverter;
use crate::plugin::sus::tee::TeeConverter;
use crate::plugin::sus::uniq::UniqConverter;
use crate::plugin::sus::wc::WcConverter;
use crate::text::str_eq;

verus! {

/// One entry of the utility table: a tagged utility converter.
pub enum SusEntry {
    Basename(BasenameConverter),
    Cat(CatConverter),
    Chmod(ChmodConverter),
    Chown(ChownConverter),
    Cp(CpConverter),
    Cut(CutConverter),
    Date(DateConverter),
    Dirname(DirnameConverter),
    Echo(EchoConverter),
    Find(FindConverter),
    Grep(GrepConverter),
    Head(HeadConverter),
    Ls(LsConverter),
    Mkdir(MkdirConverter),
    Mv(MvConverter),
    Ps(PsConverter),
    Realpath(RealpathConverter),
    Rm(RmConverter),
    Rmdir(RmdirConverter),
    Sed(SedConverter),
    Sequence(SeqConverter),
    Sort(SortConverter),
    Stat(StatConverter),
    Tail(TailConverter),
    Tee(TeeConverter),
    Uniq(UniqConverter),
    Wc(WcConverter),
}

/// The name handled by a utility table entry.
pub open spec fn spec_sus_name(e: SusEntry) -> Seq<char> {
    match e {
        SusEntry::Basename(c) => c.spec_name(),
        SusEntry::Cat(c) => c.spec_name(),
        SusEntry::Chmod(c) => c.spec_name(),
        SusEntry::Chown(c) => c.spec_name(),
        SusEntry::Cp(c) => c.spec_name(),
        SusEntry::Cut(c) => c.spec_name(),
        SusEntry::Date(c) => c.spec_name(),
        SusEntry::Dirname(c) => c.spec_name(),
        SusEntry::Echo(c) => c.spec_name(),
        SusEntry::Find(c) => c.spec_name(),
        SusEntry::Grep(c) => c.spec_name(),
        SusEntry::Head(c) => c.spec_name(),
        SusEntry::Ls(c) => c.spec_name(),
        SusEntry::Mkdir(c) => c.spec_name(),
        SusEntry::Mv(c) => c.spec_name(),
        SusEntry::Ps(c) => c.spec_name(),
        SusEntry::Realpath(c) => c.spec_name(),
        SusEntry::Rm(c) => c.spec_name(),
        SusEntry::Rmdir(c) => c.spec_name(),
        SusEntry::Sed(c) => c.spec_name(),
        SusEntry::Sequence(c) => c.spec_name(),
        SusEntry::Sort(c) => c.spec_name(),
        SusEntry::Stat(c) => c.spec_name(),
        SusEntry::Tail(c) => c.spec_name(),
        SusEntry::Tee(c) => c.spec_name(),
        SusEntry::Uniq(c) => c.spec_name(),
        SusEntry::Wc(c) => c.spec_name(),
    }
}

/// The text a utility table entry produces for the given argument views.
pub open spec fn spec_sus_convert(e: SusEntry, vs: Seq<Seq<char>>) -> Seq<char> {
    match e {
        SusEntry::Basename(c) => c.spec_convert(vs),
        SusEntry::Cat(c) => c.spec_convert(vs),
        SusEntry::Chmod(c) => c.spec_convert(vs),
        SusEntry::Chown(c) => c.spec_convert(vs),
        SusEntry::Cp(c) => c.spec_convert(vs),
        SusEntry::Cut(c) => c.spec_convert(vs),
        SusEntry::Date(c) => c.spec_convert(vs),
        SusEntry::Dirname(c) => c.spec_convert(vs),
        SusEntry::Echo(c) => c.spec_convert(vs),
        SusEntry::Find(c) => c.spec_convert(vs),
        SusEntry::Grep(c) => c.spec_convert(vs),
        SusEntry::Head(c) => c.spec_convert(vs),
        SusEntry::Ls(c) => c.spec_convert(vs),
        SusEntry::Mkdir(c) => c.spec_convert(vs),
        SusEntry::Mv(c) => c.spec_convert(vs),
        SusEntry::Ps(c) => c.spec_convert(vs),
        SusEntry::Realpath(c) => c.spec_convert(vs),
        SusEntry::Rm(c) => c.spec_convert(vs),
        SusEntry::Rmdir(c) => c.spec_convert(vs),
        SusEntry::Sed(c) => c.spec_convert(vs),
        SusEntry::Sequence(c) => c.spec_convert(vs),
        SusEntry::Sort(c) => c.spec_convert(vs),
        SusEntry::Stat(c) => c.spec_convert(vs),
        SusEntry::Tail(c) => c.spec_convert(vs),
        SusEntry::Tee(c) => c.spec_convert(vs),
        SusEntry::Uniq(c) => c.spec_convert(vs),
        SusEntry::Wc(c) => c.spec_convert(vs),
    }
}

impl SusEntry {
    /// Convert through the entry's converter.
    pub fn convert(&self, args: &[String]) -> (r: Result<String, ConvertError>)
        ensures
            r is Ok,
            r->Ok_0@ == spec_sus_convert(*self, views(args@)),
    {
        match self {
            SusEntry::Basename(c) => c.convert(args),
        SusEntry::Cat(c) => c.convert(args),
            SusEntry::Chmod(c) => c.convert(args),
            SusEntry::Chown(c) => c.convert(args),
            SusEntry::Cp(c) => c.convert(args),
            SusEntry::Cut(c) => c.convert(args),
            SusEntry::Date(c) => c.convert(args),
            SusEntry::Dirname(c) => c.convert(args),
            SusEntry::Echo(c) => c.convert(args),
            SusEntry::Find(c) => c.convert(args),
            SusEntry::Grep(c) => c.convert(args),
            SusEntry::Head(c) => c.convert(args),
            SusEntry::Ls(c) => c.convert(args),
            SusEntry::Mkdir(c) => c.convert(args),
            SusEntry::Mv(c) => c.convert(args),
            SusEntry::Ps(c) => c.convert(args),
            SusEntry::Realpath(c) => c.convert(args),
            SusEntry::Rm(c) => c.convert(args),
            SusEntry::Rmdir(c) => c.convert(args),
            SusEntry::Sed(c) => c.convert(args),
            SusEntry::Sequence(c) => c.convert(args),
            SusEntry::Sort(c) => c.convert(args),
            SusEntry::Stat(c) => c.convert(args),
            SusEntry::Tail(c) => c.convert(args),
            SusEntry::Tee(c) => c.convert(args),
            SusEntry::Uniq(c) => c.convert(args),
            SusEntry::Wc(c) => c.convert(args),
        }
    }

    /// The entry's utility name.
    pub fn command_name(&self) -> (r: &'static str)
        ensures
            r@ == spec_sus_name(*self),
    {
        match self {
            SusEntry::Basename(c) => c.command_name(),
        SusEntry::Cat(c) => c.command_name(),
            SusEntry::Chmod(c) => c.command_name(),
            SusEntry::Chown(c) => c.command_name(),
            SusEntry::Cp(c) => c.command_name(),
            SusEntry::Cut(c) => c.command_name(),
            SusEntry::Date(c) => c.command_name(),
            SusEntry::Dirname(c) => c.command_name(),
            SusEntry::Echo(c) => c.command_name(),
            SusEntry::Find(c) => c.command_name(),
            SusEntry::Grep(c) => c.command_name(),
            SusEntry::Head(c) => c.command_name(),
            SusEntry::Ls(c) => c.command_name(),
            SusEntry::Mkdir(c) => c.command_name(),
            SusEntry::Mv(c) => c.command_name(),
            SusEntry::Ps(c) => c.command_name(),
            SusEntry::Realpath(c) => c.command_name(),
            SusEntry::Rm(c) => c.command_name(),
            SusEntry::Rmdir(c) => c.command_name(),
            SusEntry::Sed(c) => c.command_name(),
            SusEntry::Sequence(c) => c.command_name(),
            SusEntry::Sort(c) => c.command_name(),
            SusEntry::Stat(c) => c.command_name(),
            SusEntry::Tail(c) => c.command_name(),
            SusEntry::Tee(c) => c.command_name(),
            SusEntry::Uniq(c) => c.command_name(),
            SusEntry::Wc(c) => c.command_name(),
        }
    }

    /// The entry's description.
    pub fn description(&self) -> &'static str {
        match self {
            SusEntry::Basename(c) => c.description(),
        SusEntry::Cat(c) => c.description(),
            SusEntry::Chmod(c) => c.description(),
            SusEntry::Chown(c) => c.description(),
            SusEntry::Cp(c) => c.description(),
            SusEntry::Cut(c) => c.description(),
            SusEntry::Date(c) => c.description(),
            SusEntry::Dirname(c) => c.description(),
            SusEntry::Echo(c) => c.description(),
            SusEntry::Find(c) => c.description(),
            SusEntry::Grep(c) => c.description(),
            SusEntry::Head(c) => c.description(),
            SusEntry::Ls(c) => c.description(),
            SusEntry::Mkdir(c) => c.description(),
            SusEntry::Mv(c) => c.description(),
            SusEntry::Ps(c) => c.description(),
            SusEntry::Realpath(c) => c.description(),
            SusEntry::Rm(c) => c.description(),
            SusEntry::Rmdir(c) => c.description(),
            SusEntry::Sed(c) => c.description(),
            SusEntry::Sequence(c) => c.description(),
            SusEntry::Sort(c) => c.description(),
            SusEntry::Stat(c) => c.description(),
            SusEntry::Tail(c) => c.description(),
            SusEntry::Tee(c) => c.description(),
            SusEntry::Uniq(c) => c.description(),
            SusEntry::Wc(c) => c.description(),
        }
    }
}

/// The standard utility table, in registration order.
pub open spec fn spec_sus_table() -> Seq<SusEntry> {
    seq![
        SusEntry::Basename(BasenameConverter),
        SusEntry::Cat(CatConverter),
        SusEntry::Chmod(ChmodConverter),
        SusEntry::Chown(ChownConverter),
        SusEntry::Cp(CpConverter),
        SusEntry::Cut(CutConverter),
        SusEntry::Date(DateConverter),
        SusEntry::Dirname(DirnameConverter),
        SusEntry::Echo(EchoConverter),
        SusEntry::Find(FindConverter),
        SusEntry::Grep(GrepConverter),
        SusEntry::Head(HeadConverter),
        SusEntry::Ls(LsConverter),
        SusEntry::Mkdir(MkdirConverter),
        SusEntry::Mv(MvConverter),
        SusEntry::Realpath(RealpathConverter),
        SusEntry::Rm(RmConverter),
        SusEntry::Rmdir(RmdirConverter),
        SusEntry::Sed(SedConverter),
        SusEntry::Sequence(SeqConverter),
        SusEntry::Sort(SortConverter),
        SusEntry::Stat(StatConverter),
        SusEntry::Tail(TailConverter),
        SusEntry::Tee(TeeConverter),
        SusEntry::Uniq(UniqConverter),
        SusEntry::Wc(WcConverter),
    ]
}

/// The first registered converter for `name`, if any.
pub open spec fn spec_sus_find(entries: Seq<SusEntry>, name: Seq<char>, i: int) -> Option<SusEntry>
    decreases entries.len() - i,
{
    if i < 0 || i >= entries.len() {
        None
    } else if spec_sus_name(entries[i]) == name {
        Some(entries[i])
    } else {
        spec_sus_find(entries, name, i + 1)
    }
}

/// Passthrough rendering for a name with no registered converter.
pub open spec fn spec_sus_passthrough(name: Seq<char>, vs: Seq<Seq<char>>) -> Seq<char> {
    if vs.len() == 0 {
        name
    } else {
        name + " "@ + spec_format_args(vs)
    }
}

/// The text produced by the registry for a utility invocation.
pub open spec fn spec_convert_command_reg(
    entries: Seq<SusEntry>,
    name: Seq<char>,
    vs: Seq<Seq<char>>,
) -> Seq<char> {
    match spec_sus_find(entries, name, 0) {
        Some(e) => spec_sus_convert(e, vs),
        None => spec_sus_passthrough(name, vs),
    }
}

/// Registry of the utility converters.
pub struct CommandRegistry {
    converters: Vec<SusEntry>,
}

impl CommandRegistry {
    /// The registered entries, in order.
    pub closed spec fn entries(&self) -> Seq<SusEntry> {
        self.converters@
    }

    /// Create a new command registry with the standard converters.
    pub fn new() -> (r: Self)
        ensures
            r.entries() == spec_sus_table(),
    {
        let mut registry = CommandRegistry { converters: Vec::new() };
        registry.register(SusEntry::Basename(BasenameConverter));
        registry.register(SusEntry::Cat(CatConverter));
        registry.register(SusEntry::Chmod(ChmodConverter));
        registry.register(SusEntry::Chown(ChownConverter));
        registry.register(SusEntry::Cp(CpConverter));
        registry.register(SusEntry::Cut(CutConverter));
        registry.register(SusEntry::Date(DateConverter));
        registry.register(SusEntry::Dirname(DirnameConverter));
        registry.register(SusEntry::Echo(EchoConverter));
        registry.register(SusEntry::Find(FindConverter));
        registry.register(SusEntry::Grep(GrepConverter));
        registry.register(SusEntry::Head(HeadConverter));
        registry.register(SusEntry::Ls(LsConverter));
        registry.register(SusEntry::Mkdir(MkdirConverter));
        registry.register(SusEntry::Mv(MvConverter));
        registry.register(SusEntry::Realpath(RealpathConverter));
        registry.register(SusEntry::Rm(RmConverter));
        registry.register(SusEntry::Rmdir(RmdirConverter));
        registry.register(SusEntry::Sed(SedConverter));
        registry.register(SusEntry::Sequence(SeqConverter));
        registry.register(SusEntry::Sort(SortConverter));
        registry.register(SusEntry::Stat(StatConverter));
        registry.register(SusEntry::Tail(TailConverter));
        registry.register(SusEntry::Tee(TeeConverter));
        registry.register(SusEntry::Uniq(UniqConverter));
        registry.register(SusEntry::Wc(WcConverter));
        proof {
            assert(registry.entries() =~= spec_sus_table());
        }
        registry
    }

    /// Register a utility converter.
    pub fn register(&mut self, converter: SusEntry)
        ensures
            final(self).entries() == old(self).entries().push(converter),
    {
        self.converters.push(converter);
    }

    /// Find the converter for the given utility name.
    #[verifier::loop_isolation(false)]
    pub fn find_converter(&self, command: &str) -> (r: Option<&SusEntry>)
        ensures
            match r {
                Some(e) => spec_sus_find(self.entries(), command@, 0) == Some(*e),
                None => spec_sus_find(self.entries(), command@, 0) is None,
            },
    {
        let mut i: usize = 0;
        while i < self.converters.len()
            invariant
                i <= self.converters@.len(),
                spec_sus_find(self.entries(), command@, 0) == spec_sus_find(
                    self.entries(),
                    command@,
                    i as int,
                ),
            decreases self.converters@.len() - i,
        {
            let e = &self.converters[i];
            if str_eq(e.command_name(), command) {
                return Some(e);
            }
            i = i + 1;
        }
        None
    }

    /// All registered utility names, in order.
    #[verifier::loop_isolation(false)]
    pub fn get_command_names(&self) -> (r: Vec<&'static str>)
        ensures
            r@.len() == self.entries().len(),
            forall|k: int| 0 <= k < r@.len() ==> (#[trigger] r@[k])@ == spec_sus_name(
                self.entries()[k],
            ),
    {
        let mut names: Vec<&'static str> = Vec::new();
        let mut i: usize = 0;
        while i < self.converters.len()
            invariant
                i <= self.converters@.len(),
                names@.len() == i,
                forall|k: int| 0 <= k < i ==> (#[trigger] names@[k])@ == spec_sus_name(
                    self.entries()[k],
                ),
            decreases self.converters@.len() - i,
        {
            names.push(self.converters[i].command_name());
            i = i + 1;
        }
        names
    }

    /// Convert a utility invocation, passing unknown names through with
    /// quoted arguments.
    pub fn convert_command(&self, name: &str, args: &[String]) -> (r: Result<String, ConvertError>)
        ensures
            r is Ok,
            r->Ok_0@ == spec_convert_command_reg(self.entries(), name@, views(args@)),
    {
        match self.find_converter(name) {
            Some(e) => e.convert(args),
            None => {
                if args.len() == 0 {
                    Ok(name.to_owned())
                } else {
                    let base = BaseConverter;
                    let mut out: String = name.to_owned();
                    out.append(" ");
                    out.append(base.format_args(args).as_str());
                    Ok(out)
                }
            },
        }
    }
}

impl Default for CommandRegistry {
    fn default() -> (r: Self)
        ensures
            r.entries() == spec_sus_table(),
    {
        Self::new()
    }
}

} // verus!
