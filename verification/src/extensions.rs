//! The extension registry: the names that a guest advertises to its host,
//! kept once each and in the order in which they were registered.

use crate::registry::{membrane_string_utf8, BufferRegistry};
use vstd::prelude::*;
use vstd::string::StringExecFns;
use vstd::utf8::encode_utf8;

verus! {

/// The names after `name` was registered: it goes last where it is new, and
/// the names stay as they are where they hold it already.
pub open spec fn registered(names: Seq<Seq<char>>, name: Seq<char>) -> Seq<Seq<char>> {
    if names.contains(name) {
        names
    } else {
        names.push(name)
    }
}

/// The names as one string: each in turn, with a comma after every one of
/// them, the last included.
pub open spec fn listing(names: Seq<Seq<char>>) -> Seq<char>
    decreases names.len(),
{
    if names.len() == 0 {
        Seq::empty()
    } else {
        listing(names.drop_last()) + names.last() + seq![',']
    }
}

/// The names that a guest has registered.
pub struct ExtensionRegistry {
    names: Vec<String>,
}

impl View for ExtensionRegistry {
    type V = Seq<Seq<char>>;

    closed spec fn view(&self) -> Seq<Seq<char>> {
        Seq::new(self.names@.len(), |i: int| self.names@[i]@)
    }
}

impl ExtensionRegistry {
    /// No name is held twice: this holds of every registry there is.
    #[verifier::type_invariant]
    spec fn distinct(&self) -> bool {
        self@.no_duplicates()
    }

    /// A registry without names.
    pub fn new() -> (extensions: ExtensionRegistry)
        ensures
            extensions@ == Seq::<Seq<char>>::empty(),
            extensions@.no_duplicates(),
    {
        ExtensionRegistry { names: Vec::new() }
    }

    /// Whether `name` is among the registered names.
    fn holds(&self, name: &String) -> (found: bool)
        ensures
            found == self@.contains(name@),
    {
        let mut i: usize = 0;
        while i < self.names.len()
            invariant
                i <= self.names@.len(),
                forall|j: int| 0 <= j < i ==> self@[j] != name@,
            decreases self.names@.len() - i,
        {
            if self.names[i] == *name {
                assert(self@[i as int] == name@);
                return true;
            }
            i += 1;
        }
        false
    }
}

/// Registers `ext` as an extension of this guest. A name that is registered
/// already is not registered again.
pub fn membrane_init_add_ext(extensions: &mut ExtensionRegistry, ext: &str)
    ensures
        final(extensions)@ == registered(old(extensions)@, ext@),
        final(extensions)@.no_duplicates(),
{
    proof {
        use_type_invariant(&*extensions);
    }
    let name = String::from_str(ext);
    if !extensions.holds(&name) {
        // The names are taken out, extended and put back whole, so that the
        // registry is never seen with its names half changed.
        let mut names: Vec<String> = Vec::new();
        std::mem::swap(&mut extensions.names, &mut names);
        names.push(name);
        let ghost extended = Seq::new(names@.len(), |i: int| names@[i]@);
        assert(extended =~= old(extensions)@.push(ext@));
        assert(extended.no_duplicates());
        *extensions = ExtensionRegistry { names };
    }
}

/// Writes the registered names as one string into a new buffer of `registry`
/// and returns its handle. No name is listed twice.
pub fn membrane_get_extensions(extensions: &ExtensionRegistry, registry: &mut BufferRegistry) -> (handle:
    i32)
    ensures
        handle == old(registry)@.next,
        final(registry)@ == old(registry)@.allocate(encode_utf8(listing(extensions@))),
        extensions@.no_duplicates(),
{
    proof {
        use_type_invariant(extensions);
    }
    let mut builder = String::new();
    let mut i: usize = 0;
    proof {
        reveal_strlit(",");
    }
    while i < extensions.names.len()
        invariant
            i <= extensions.names@.len(),
            ","@ == seq![','],
            builder@ == listing(extensions@.take(i as int)),
        decreases extensions.names@.len() - i,
    {
        builder.append(extensions.names[i].as_str());
        builder.append(",");
        proof {
            let before = extensions@.take(i as int);
            let after = extensions@.take(i as int + 1);
            assert(after.drop_last() =~= before);
            assert(after.last() == extensions@[i as int]);
        }
        i += 1;
    }
    assert(extensions@.take(i as int) =~= extensions@);
    membrane_string_utf8(registry, builder)
}

/// Registering keeps the names a set in order of arrival: no name comes to be
/// held twice, the name registered is held, the names held before stay where
/// they were, and registering the same name again changes nothing.
pub proof fn law_names_stay_distinct(names: Seq<Seq<char>>, name: Seq<char>)
    requires
        names.no_duplicates(),
    ensures
        registered(names, name).no_duplicates(),
        registered(names, name).contains(name),
        names.is_prefix_of(registered(names, name)),
        registered(registered(names, name), name) == registered(names, name),
{
    let after = registered(names, name);
    if !names.contains(name) {
        assert(after[names.len() as int] == name);
    }
    assert(after.contains(name));
}

} // verus!
