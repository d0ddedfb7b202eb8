//! The way to the domain of the game and to one of its assemblies.

use vstd::prelude::*;

use crate::text;

verus! {

/// What to do next on the way to the default domain.
#[derive(Debug, Clone, Copy, PartialEq, Eq, Structural)]
pub enum DomainHunt {
    /// Count the runtimes that the process has loaded.
    Count,
    /// None was seen: ask for the runtime of the game by its version.
    Fallback,
    /// Ask this runtime, one of so many, for its default domain.
    Ask { runtime: usize, of: usize },
    /// This runtime gave its domain.
    Found(usize),
    /// There is no runtime in the process.
    NoRuntime,
    /// No runtime gave its domain; the last refusal is the reason.
    NoDomain,
}

/// What came back.
#[derive(Debug, Clone, Copy, PartialEq, Eq, Structural)]
pub enum DomainReply {
    Counted(usize),
    Done(bool),
}

impl DomainHunt {
    pub open spec fn after(self, reply: DomainReply) -> DomainHunt {
        match (self, reply) {
            (DomainHunt::Count, DomainReply::Counted(of)) => if of == 0 {
                DomainHunt::Fallback
            } else {
                DomainHunt::Ask { runtime: 0, of }
            },
            (DomainHunt::Fallback, DomainReply::Done(there)) => if there {
                DomainHunt::Ask { runtime: 0, of: 1 }
            } else {
                DomainHunt::NoRuntime
            },
            (DomainHunt::Ask { runtime, of }, DomainReply::Done(gave)) => if gave {
                DomainHunt::Found(runtime)
            } else if runtime + 1 < of {
                DomainHunt::Ask { runtime: (runtime + 1) as usize, of }
            } else {
                DomainHunt::NoDomain
            },
            _ => self,
        }
    }

    /// Goes on with what came back. A reply to another question changes nothing.
    pub fn tell(self, reply: DomainReply) -> (r: DomainHunt)
        ensures
            r == self.after(reply),
    {
        match (self, reply) {
            (DomainHunt::Count, DomainReply::Counted(of)) => if of == 0 {
                DomainHunt::Fallback
            } else {
                DomainHunt::Ask { runtime: 0, of }
            },
            (DomainHunt::Fallback, DomainReply::Done(there)) => if there {
                DomainHunt::Ask { runtime: 0, of: 1 }
            } else {
                DomainHunt::NoRuntime
            },
            (DomainHunt::Ask { runtime, of }, DomainReply::Done(gave)) => if gave {
                DomainHunt::Found(runtime)
            } else if runtime < of && runtime + 1 < of {
                DomainHunt::Ask { runtime: runtime + 1, of }
            } else {
                DomainHunt::NoDomain
            },
            _ => self,
        }
    }
}

/// Begins the way to the default domain.
pub fn domain_hunt() -> (r: DomainHunt)
    ensures
        r == DomainHunt::Count,
{
    DomainHunt::Count
}

/// Where the runtimes from `runtime` on lead, when `gives` says which give a domain.
pub open spec fn asked(runtime: int, gives: Seq<bool>) -> DomainHunt
    decreases gives.len() - runtime,
{
    if runtime < 0 || runtime >= gives.len() {
        DomainHunt::NoDomain
    } else {
        let next = (DomainHunt::Ask { runtime: runtime as usize, of: gives.len() as usize }).after(
            DomainReply::Done(gives[runtime]),
        );
        if next is Ask {
            asked(runtime + 1, gives)
        } else {
            next
        }
    }
}

proof fn lemma_asked(runtime: int, gives: Seq<bool>)
    requires
        0 <= runtime < gives.len() <= usize::MAX,
    ensures
        match asked(runtime, gives) {
            DomainHunt::Found(i) => runtime <= i < gives.len() && gives[i as int] && forall|j: int|
                runtime <= j < i ==> !gives[j],
            end => end is NoDomain && forall|j: int| runtime <= j < gives.len() ==> !gives[j],
        },
    decreases gives.len() - runtime,
{
    if !gives[runtime] && runtime + 1 < gives.len() {
        lemma_asked(runtime + 1, gives);
    }
}

/// The hunt ends with the first runtime that gives its domain; only where none does
/// is there no domain.
pub proof fn law_first_domain_wins(gives: Seq<bool>)
    requires
        0 < gives.len() <= usize::MAX,
    ensures
        DomainHunt::Count.after(DomainReply::Counted(gives.len() as usize)) == (DomainHunt::Ask {
            runtime: 0,
            of: gives.len() as usize,
        }),
        match asked(0, gives) {
            DomainHunt::Found(i) => i < gives.len() && gives[i as int] && forall|j: int|
                0 <= j < i ==> !gives[j],
            end => end is NoDomain && forall|j: int| 0 <= j < gives.len() ==> !gives[j],
        },
{
    lemma_asked(0, gives);
}

/// What to do next in the search among the loaded assemblies.
#[derive(Debug, Clone, Copy, PartialEq, Eq, Structural)]
pub enum AssemblyHunt {
    /// Read the full name of the element `index`; the last one is `last`.
    Read { index: i32, last: i32 },
    /// This one has the name.
    Found(i32),
    /// None has it: ask the domain to load the assembly.
    Missing,
}

impl AssemblyHunt {
    /// The search from an element on.
    pub open spec fn from(index: int, last: int) -> AssemblyHunt {
        if index <= last {
            AssemblyHunt::Read { index: index as i32, last: last as i32 }
        } else {
            AssemblyHunt::Missing
        }
    }

    pub open spec fn after(self, simple: Seq<char>, full: Option<Seq<char>>) -> AssemblyHunt {
        match self {
            AssemblyHunt::Read { index, last } => if full is Some && crate::text::leads(
                full->0,
                simple,
            ) {
                AssemblyHunt::Found(index)
            } else {
                AssemblyHunt::from(index + 1, last as int)
            },
            _ => self,
        }
    }

    /// Goes on with the full name of the element that was to be read. An element that
    /// is no assembly, or whose name cannot be read, is passed over.
    pub fn tell(self, simple: &str, full: Option<&str>) -> (r: AssemblyHunt)
        ensures
            r == self.after(
                simple@,
                match full {
                    Some(s) => Some(s@),
                    None => None,
                },
            ),
    {
        match self {
            AssemblyHunt::Read { index, last } => {
                if let Some(full) = full {
                    if text::leads_with(full, simple) {
                        return AssemblyHunt::Found(index);
                    }
                }
                if index < last {
                    AssemblyHunt::Read { index: index + 1, last }
                } else {
                    AssemblyHunt::Missing
                }
            },
            _ => self,
        }
    }
}

/// Begins the search among the elements `first` to `last` of the list of assemblies.
pub fn assembly_hunt(first: i32, last: i32) -> (r: AssemblyHunt)
    ensures
        r == AssemblyHunt::from(first as int, last as int),
{
    if first <= last {
        AssemblyHunt::Read { index: first, last }
    } else {
        AssemblyHunt::Missing
    }
}

/// Where the search leads from `index` on, when `names` holds the full names.
pub open spec fn sought(
    index: int,
    last: int,
    names: Map<int, Option<Seq<char>>>,
    simple: Seq<char>,
) -> AssemblyHunt
    decreases last - index + 1,
{
    if index > last {
        AssemblyHunt::Missing
    } else {
        let next = AssemblyHunt::from(index, last).after(simple, names[index]);
        if next is Read {
            sought(index + 1, last, names, simple)
        } else {
            next
        }
    }
}

/// Whether the element `index` is an assembly of the name.
pub open spec fn named(
    names: Map<int, Option<Seq<char>>>,
    simple: Seq<char>,
    index: int,
) -> bool {
    names[index] is Some && crate::text::leads(names[index]->0, simple)
}

/// The search ends with the first assembly of the name; only where none has it is it
/// missing.
pub proof fn law_first_assembly_wins(
    index: int,
    last: int,
    names: Map<int, Option<Seq<char>>>,
    simple: Seq<char>,
)
    requires
        i32::MIN <= index,
        i32::MIN <= last <= i32::MAX,
    ensures
        match sought(index, last, names, simple) {
            AssemblyHunt::Found(i) => index <= i <= last && named(names, simple, i as int)
                && forall|j: int| index <= j < i ==> !#[trigger] named(names, simple, j),
            end => end is Missing && forall|j: int|
                index <= j <= last ==> !#[trigger] named(names, simple, j),
        },
    decreases last - index + 1,
{
    if index <= last && !named(names, simple, index) {
        law_first_assembly_wins(index + 1, last, names, simple);
    }
}

} // verus!
