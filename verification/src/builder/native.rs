use vstd::prelude::*;

verus! {

/// The names of the functions that a module offers to the script, in the
/// order in which they were added.
pub uninterp spec fn module_functions(module: rune::Module) -> Seq<Seq<char>>;

/// The name of the crate for which a module was made, or the empty text
/// for a module of no crate.
pub uninterp spec fn module_crate(module: rune::Module) -> Seq<char>;

/// Whether a module bears a mark of its own, by which a context takes it
/// once only: installing a second module of the same mark changes nothing.
pub uninterp spec fn module_marked(module: rune::Module) -> bool;

/// The number of characters under which the name of a crate is sure to fit
/// what rune stores of it: rune stops on a name of 16384 bytes or more, and
/// no character takes more than four bytes.
pub open spec fn name_limit() -> nat {
    4096
}

/// `Module::with_crate`: a module for the crate `name` that offers nothing
/// yet and bears no mark. It fails where rune cannot allocate.
#[verifier::external_body]
pub(crate) fn module_with_crate(name: &str) -> (module: Result<rune::Module, rune::ContextError>)
    requires
        name@.len() < name_limit(),
    ensures
        module matches Ok(m) ==> module_crate(m) == name@ && module_functions(m).len() == 0,
        module matches Ok(m) ==> !module_marked(m),
{
    rune::Module::with_crate(name)
}

} // verus!
