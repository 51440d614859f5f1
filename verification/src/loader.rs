//! Module loading: which paths name a module, and how the five entry points
//! are bound, in order, into a symbol table.
//!
//! Loading the image and looking a symbol up are the caller's work. The types
//! here say which step comes next and what each outcome leads to.

use vstd::prelude::*;
use vstd::slice::slice_to_vec;
use crate::error::{BridgeError, EntryPoint};
use crate::library::Library;

verus! {

/// Number of entry points that a module exports.
pub const ENTRY_POINTS: usize = 5;

impl EntryPoint {
    /// The entry point that is bound at a position of the resolution order.
    pub open spec fn at(index: int) -> EntryPoint {
        if index <= 0 {
            EntryPoint::InfoFn
        } else if index == 1 {
            EntryPoint::OpenFn
        } else if index == 2 {
            EntryPoint::CloseFn
        } else if index == 3 {
            EntryPoint::SetFn
        } else {
            EntryPoint::GetFn
        }
    }

    /// The name under which a module exports the entry point.
    pub open spec fn exported_as(self) -> Seq<char> {
        match self {
            EntryPoint::InfoFn => "Info"@,
            EntryPoint::OpenFn => "Open"@,
            EntryPoint::CloseFn => "Close"@,
            EntryPoint::SetFn => "Set"@,
            EntryPoint::GetFn => "Get"@,
        }
    }

    /// The name under which a module exports the entry point.
    pub fn symbol(self) -> (r: &'static str)
        ensures
            r@ == self.exported_as(),
    {
        match self {
            EntryPoint::InfoFn => "Info",
            EntryPoint::OpenFn => "Open",
            EntryPoint::CloseFn => "Close",
            EntryPoint::SetFn => "Set",
            EntryPoint::GetFn => "Get",
        }
    }
}

/// The byte that separates the components of a path.
pub const SEPARATOR: u8 = 0x2f;

/// The byte that sets a file name's extension off, and names the current
/// directory where it is a component of its own.
pub const DOT: u8 = 0x2e;

/// A path without what may follow its last component: every final
/// separator, and every final `.` that stands directly behind a separator,
/// is dropped.
pub open spec fn trimmed(path: Seq<u8>) -> Seq<u8>
    decreases path.len(),
{
    let n = path.len() as int;
    if n >= 1 && path[n - 1] == SEPARATOR {
        trimmed(path.drop_last())
    } else if n >= 2 && path[n - 1] == DOT && path[n - 2] == SEPARATOR {
        trimmed(path.drop_last())
    } else {
        path
    }
}

/// The bytes end in `.so`, and something other than a separator stands
/// before the dot: the file name is more than the extension.
pub open spec fn ends_in_library_extension(name: Seq<u8>) -> bool {
    let n = name.len() as int;
    &&& n >= 4
    &&& name[n - 4] != SEPARATOR
    &&& name[n - 3] == DOT
    &&& name[n - 2] == 0x73u8
    &&& name[n - 1] == 0x6fu8
}

/// A path, given by its bytes, names a module when the extension of its last
/// component is `so`. Separators and `.` components behind the last
/// component do not count; a file name that begins with its only dot has no
/// extension.
pub open spec fn has_library_suffix(path: Seq<u8>) -> bool {
    ends_in_library_extension(trimmed(path))
}

/// What follows the last component does not count: a path names a module
/// exactly when it does so with one more separator at its end, and exactly
/// when it does so with a separator and a `.` at its end.
pub proof fn trailing_separator_does_not_count(path: Seq<u8>)
    ensures
        has_library_suffix(path.push(SEPARATOR)) == has_library_suffix(path),
        has_library_suffix(path.push(SEPARATOR).push(DOT)) == has_library_suffix(path),
{
    let slash = path.push(SEPARATOR);
    let dot = slash.push(DOT);
    assert(slash.drop_last() == path);
    assert(dot.drop_last() == slash);
    assert(trimmed(slash) == trimmed(path));
    assert(trimmed(dot) == trimmed(slash));
}

/// The length of a path without what `trimmed` drops.
fn trimmed_length(path: &[u8]) -> (m: usize)
    ensures
        m <= path@.len(),
        trimmed(path@) == path@.take(m as int),
{
    let mut m: usize = path.len();
    assert(path@.take(m as int) == path@);
    loop
        invariant
            m <= path@.len(),
            trimmed(path@) == trimmed(path@.take(m as int)),
        ensures
            m <= path@.len(),
            trimmed(path@) == path@.take(m as int),
        decreases m,
    {
        let drop = if m >= 1 && path[m - 1] == SEPARATOR {
            true
        } else {
            m >= 2 && path[m - 1] == DOT && path[m - 2] == SEPARATOR
        };
        if !drop {
            break ;
        }
        assert(path@.take(m as int).drop_last() == path@.take(m - 1));
        m -= 1;
    }
    m
}

/// Whether a path, given by its bytes, names a module.
pub fn names_library(path: &[u8]) -> (r: bool)
    ensures
        r == has_library_suffix(path@),
{
    let m: usize = trimmed_length(path);
    if m < 4 {
        return false;
    }
    path[m - 4] != SEPARATOR && path[m - 3] == DOT && path[m - 2] == 0x73 && path[m - 1] == 0x6f
}

/// What a symbol lookup that reports the null address is taken for.
pub open spec fn null_address_report() -> Seq<char> {
    "symbol resolved to a null address"@
}

/// What one lookup leads to, given the addresses bound so far: one more
/// address, or the symbol that failed with the report of its failure. A
/// lookup fails when it reports failure or yields the null address.
pub open spec fn bind_step(bound: Seq<usize>, outcome: Result<usize, String>) -> Result<
    Seq<usize>,
    (EntryPoint, Seq<char>),
> {
    match outcome {
        Ok(address) => if address != 0 {
            Ok(bound.push(address))
        } else {
            Err((EntryPoint::at(bound.len() as int), null_address_report()))
        },
        Err(message) => Err((EntryPoint::at(bound.len() as int), message@)),
    }
}

/// What a run of lookups leads to: the outcomes are taken in order, and the
/// first failure ends the run.
pub open spec fn bind_all(bound: Seq<usize>, outcomes: Seq<Result<usize, String>>) -> Result<
    Seq<usize>,
    (EntryPoint, Seq<char>),
>
    decreases outcomes.len(),
{
    if outcomes.len() == 0 {
        Ok(bound)
    } else {
        match bind_step(bound, outcomes[0]) {
            Ok(next) => bind_all(next, outcomes.drop_first()),
            Err(failure) => Err(failure),
        }
    }
}

/// A lookup succeeded: it yielded an address other than null.
pub open spec fn found(outcome: Result<usize, String>) -> bool {
    outcome matches Ok(address) && address != 0
}

/// The licence to load the image at a validated path.
pub struct Loader {
    path: Vec<u8>,
}

/// A loaded image whose entry points are being bound.
pub struct Resolver {
    bound: Vec<usize>,
}

/// What binding one entry point leads to.
pub enum Binding {
    /// More entry points are to be bound.
    Pending(Resolver),
    /// All five are bound.
    Complete(Library),
}

impl Loader {
    #[verifier::type_invariant]
    spec fn validated(self) -> bool {
        has_library_suffix(self.path@)
    }

    /// The bytes of the path to load.
    pub closed spec fn target(self) -> Seq<u8> {
        self.path@
    }

    pub(crate) fn new(path: &[u8]) -> (r: Loader)
        requires
            has_library_suffix(path@),
        ensures
            r.target() == path@,
    {
        Loader { path: slice_to_vec(path) }
    }

    /// The bytes of the path to load, as they were given. The path names a
    /// module.
    pub fn path(&self) -> (r: &[u8])
        ensures
            r@ == self.target(),
            has_library_suffix(r@),
    {
        proof {
            use_type_invariant(self);
        }
        self.path.as_slice()
    }

    /// Takes the outcome of loading the image: a failure ends the load with
    /// `DynamicLoad` and the loader's report, a success starts resolution
    /// with nothing bound.
    pub fn image(self, outcome: Result<(), String>) -> (r: Result<Resolver, BridgeError>)
        ensures
            match outcome {
                Ok(_) => r matches Ok(resolver) && resolver@ == Seq::<usize>::empty(),
                Err(message) => r == Err::<Resolver, BridgeError>(
                    BridgeError::DynamicLoad { message },
                ),
            },
    {
        match outcome {
            Ok(_) => Ok(Resolver { bound: Vec::new() }),
            Err(message) => Err(BridgeError::DynamicLoad { message }),
        }
    }
}

impl View for Resolver {
    type V = Seq<usize>;

    /// The addresses bound so far, in resolution order.
    closed spec fn view(&self) -> Seq<usize> {
        self.bound@
    }
}

impl Resolver {
    #[verifier::type_invariant]
    spec fn partial(self) -> bool {
        &&& self.bound@.len() < ENTRY_POINTS
        &&& forall|i: int| 0 <= i < self.bound@.len() ==> self.bound@[i] != 0
    }

    /// The entry point to look up next.
    pub fn pending(&self) -> (r: EntryPoint)
        ensures
            r == EntryPoint::at(self@.len() as int),
            self@.len() < ENTRY_POINTS,
    {
        proof {
            use_type_invariant(self);
        }
        let n: usize = self.bound.len();
        if n == 0 {
            EntryPoint::InfoFn
        } else if n == 1 {
            EntryPoint::OpenFn
        } else if n == 2 {
            EntryPoint::CloseFn
        } else if n == 3 {
            EntryPoint::SetFn
        } else {
            EntryPoint::GetFn
        }
    }

    /// Takes the outcome of looking up the pending entry point.
    ///
    /// A failure ends the load with `SymbolResolution`, naming the entry point
    /// and carrying the report. A success binds the address; the fifth
    /// address completes the symbol table.
    pub fn bind(self, outcome: Result<usize, String>) -> (r: Result<Binding, BridgeError>)
        ensures
            match bind_step(self@, outcome) {
                Ok(bound) => if bound.len() == ENTRY_POINTS {
                    r matches Ok(Binding::Complete(library)) && library.holds(bound)
                } else {
                    r matches Ok(Binding::Pending(next)) && next@ == bound
                },
                Err((symbol, report)) => r matches Err(
                    BridgeError::SymbolResolution { symbol: s, message },
                ) && s == symbol && message@ == report,
            },
    {
        proof {
            use_type_invariant(&self);
        }
        let symbol = self.pending();
        match outcome {
            Ok(address) => {
                if address == 0 {
                    return Err(
                        BridgeError::SymbolResolution {
                            symbol,
                            message: "symbol resolved to a null address".to_owned(),
                        },
                    );
                }
                let mut bound = self.bound;
                bound.push(address);
                if bound.len() == ENTRY_POINTS {
                    Ok(Binding::Complete(Library::assemble(&bound)))
                } else {
                    Ok(Binding::Pending(Resolver { bound }))
                }
            },
            Err(message) => Err(BridgeError::SymbolResolution { symbol, message }),
        }
    }
}

/// The addresses that a run of successful lookups yields.
pub open spec fn addresses(outcomes: Seq<Result<usize, String>>) -> Seq<usize> {
    Seq::new(outcomes.len(), |i: int| outcomes[i].unwrap())
}

/// A run of lookups ends at its first failure, with the entry point whose
/// turn it was: the lookups before it each bound one address, and none after
/// it counts.
pub proof fn run_ends_at_first_failure(
    bound: Seq<usize>,
    outcomes: Seq<Result<usize, String>>,
    k: int,
)
    requires
        0 <= k < outcomes.len(),
        !found(outcomes[k]),
        forall|j: int| 0 <= j < k ==> found(#[trigger] outcomes[j]),
    ensures
        bind_all(bound, outcomes) matches Err((symbol, _)) && symbol == EntryPoint::at(
            bound.len() + k,
        ),
    decreases k,
{
    if k > 0 {
        assert(found(outcomes[0]));
        let next = bound.push(outcomes[0].unwrap());
        let rest = outcomes.drop_first();
        assert forall|j: int| 0 <= j < k - 1 implies found(#[trigger] rest[j]) by {
            assert(found(outcomes[j + 1]));
        }
        run_ends_at_first_failure(next, rest, k - 1);
    }
}

/// A run of lookups that all succeed binds every address, in order.
pub proof fn run_binds_all(bound: Seq<usize>, outcomes: Seq<Result<usize, String>>)
    requires
        forall|j: int| 0 <= j < outcomes.len() ==> found(#[trigger] outcomes[j]),
    ensures
        bind_all(bound, outcomes) == Ok::<Seq<usize>, (EntryPoint, Seq<char>)>(
            bound + addresses(outcomes),
        ),
    decreases outcomes.len(),
{
    if outcomes.len() == 0 {
        assert(bound + addresses(outcomes) =~= bound);
    } else {
        assert(found(outcomes[0]));
        let next = bound.push(outcomes[0].unwrap());
        let rest = outcomes.drop_first();
        assert forall|j: int| 0 <= j < rest.len() implies found(#[trigger] rest[j]) by {
            assert(found(outcomes[j + 1]));
        }
        run_binds_all(next, rest);
        assert(next + addresses(rest) =~= bound + addresses(outcomes));
    }
}

/// A module that lacks any one of its five entry points is never loaded:
/// the run of five lookups, started with nothing bound, fails and names an
/// entry point whose lookup failed, and so yields no symbol table.
pub proof fn missing_symbol_fails(outcomes: Seq<Result<usize, String>>)
    requires
        outcomes.len() == ENTRY_POINTS,
        exists|k: int| 0 <= k < outcomes.len() && !found(#[trigger] outcomes[k]),
    ensures
        bind_all(Seq::empty(), outcomes) matches Err((symbol, _)) && exists|k: int|
            0 <= k < outcomes.len() && !found(#[trigger] outcomes[k]) && symbol == EntryPoint::at(
                k,
            ),
{
    let k = first_failure(outcomes, outcomes.len() as int);
    run_ends_at_first_failure(Seq::empty(), outcomes, k);
}

/// A module that exports all five entry points is loaded with exactly the
/// five addresses found, in resolution order.
pub proof fn complete_module_loads(outcomes: Seq<Result<usize, String>>)
    requires
        outcomes.len() == ENTRY_POINTS,
        forall|j: int| 0 <= j < outcomes.len() ==> found(#[trigger] outcomes[j]),
    ensures
        bind_all(Seq::empty(), outcomes) == Ok::<Seq<usize>, (EntryPoint, Seq<char>)>(
            addresses(outcomes),
        ),
{
    run_binds_all(Seq::empty(), outcomes);
    assert(Seq::<usize>::empty() + addresses(outcomes) =~= addresses(outcomes));
}

/// The first failure among the first `n` outcomes, where there is one.
proof fn first_failure(outcomes: Seq<Result<usize, String>>, n: int) -> (k: int)
    requires
        0 <= n <= outcomes.len(),
        exists|j: int| 0 <= j < n && !found(#[trigger] outcomes[j]),
    ensures
        0 <= k < n,
        !found(outcomes[k]),
        forall|j: int| 0 <= j < k ==> found(#[trigger] outcomes[j]),
    decreases n,
{
    if exists|j: int| 0 <= j < n - 1 && !found(#[trigger] outcomes[j]) {
        first_failure(outcomes, n - 1)
    } else {
        n - 1
    }
}

} // verus!
