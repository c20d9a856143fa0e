//! One-time stage-type registration.
//!
//! The host requires each stage type to be registered exactly once per
//! process. The registry is keyed by stage type name and registration is
//! idempotent: repeated attempts for one name collapse to one actual
//! registration, so callers on several threads may all attempt it.

use vstd::prelude::*;

verus! {

/// The names registered so far, extended by `name` unless it is already
/// present.
pub open spec fn registered_after(names: Seq<Seq<char>>, name: Seq<char>) -> Seq<Seq<char>> {
    if names.contains(name) {
        names
    } else {
        names.push(name)
    }
}

/// The set of stage type names registered so far.
pub struct TypeRegistry {
    names: Vec<String>,
}

impl View for TypeRegistry {
    type V = Seq<Seq<char>>;

    closed spec fn view(&self) -> Seq<Seq<char>> {
        self.names@.map_values(|s: String| s@)
    }
}

impl TypeRegistry {
    /// An empty registry: nothing registered yet.
    pub fn new() -> (r: TypeRegistry)
        ensures
            r@ == Seq::<Seq<char>>::empty(),
    {
        let r = TypeRegistry { names: Vec::new() };
        proof {
            assert(r@ =~= Seq::<Seq<char>>::empty());
        }
        r
    }

    /// Whether a stage type of this name is registered.
    pub fn is_registered(&self, name: &String) -> (b: bool)
        ensures
            b == self@.contains(name@),
    {
        let n = self.names.len();
        let mut i: usize = 0;
        while i < n
            invariant
                i <= n,
                n == self.names@.len(),
                forall|j: int| 0 <= j < i ==> self.names@[j]@ != name@,
            decreases n - i,
        {
            if self.names[i] == *name {
                proof {
                    assert(self@[i as int] == name@);
                }
                return true;
            }
            i = i + 1;
        }
        proof {
            assert(forall|j: int| 0 <= j < self@.len() ==> self@[j] == self.names@[j]@);
        }
        false
    }

    /// Registers a stage type name unless it is already registered, and
    /// reports whether this attempt performed the registration. Repeated
    /// attempts for one name collapse to one actual registration.
    pub fn register_once(&mut self, name: String) -> (fresh: bool)
        ensures
            final(self)@ == registered_after(old(self)@, name@),
            fresh == !old(self)@.contains(name@),
    {
        if self.is_registered(&name) {
            false
        } else {
            self.names.push(name);
            proof {
                assert(final(self)@ =~= old(self)@.push(name@));
            }
            true
        }
    }
}

/// Membership in the registry survives further registrations.
pub proof fn lemma_register_keeps(names: Seq<Seq<char>>, present: Seq<char>, added: Seq<char>)
    requires
        names.contains(present),
    ensures
        registered_after(names, added).contains(present),
{
    if !names.contains(added) {
        let i = choose|i: int| 0 <= i < names.len() && names[i] == present;
        assert(names.push(added)[i] == present);
    }
}

/// After a registration attempt the name is registered.
pub proof fn lemma_register_registers(names: Seq<Seq<char>>, name: Seq<char>)
    ensures
        registered_after(names, name).contains(name),
{
    if !names.contains(name) {
        assert(names.push(name)[names.len() as int] == name);
    }
}

/// Registering a name twice is the same as registering it once: attempts
/// for one name collapse to one actual registration.
pub proof fn lemma_register_once_idempotent(names: Seq<Seq<char>>, name: Seq<char>)
    ensures
        registered_after(registered_after(names, name), name) == registered_after(names, name),
{
    lemma_register_registers(names, name);
}

/// Registers every stage type this library ships with the host: called
/// once at plugin load.
pub fn plugin_init(registry: &mut TypeRegistry) -> (r: Result<(), ()>)
    ensures
        r is Ok,
        final(registry)@ == registered_after(
            registered_after(
                registered_after(
                    registered_after(
                        registered_after(old(registry)@, "monodepth"@),
                        "semseg"@,
                    ),
                    "motiontransfer"@,
                ),
                "facepose"@,
            ),
            "salientobject"@,
        ),
        final(registry)@.contains("monodepth"@),
        final(registry)@.contains("semseg"@),
        final(registry)@.contains("motiontransfer"@),
        final(registry)@.contains("facepose"@),
        final(registry)@.contains("salientobject"@),
{
    let ghost s0 = registry@;
    registry.register_once("monodepth".to_owned());
    let ghost s1 = registry@;
    registry.register_once("semseg".to_owned());
    let ghost s2 = registry@;
    registry.register_once("motiontransfer".to_owned());
    let ghost s3 = registry@;
    registry.register_once("facepose".to_owned());
    let ghost s4 = registry@;
    registry.register_once("salientobject".to_owned());
    proof {
        lemma_register_registers(s0, "monodepth"@);
        lemma_register_keeps(s1, "monodepth"@, "semseg"@);
        lemma_register_registers(s1, "semseg"@);
        lemma_register_keeps(s2, "monodepth"@, "motiontransfer"@);
        lemma_register_keeps(s2, "semseg"@, "motiontransfer"@);
        lemma_register_registers(s2, "motiontransfer"@);
        lemma_register_keeps(s3, "monodepth"@, "facepose"@);
        lemma_register_keeps(s3, "semseg"@, "facepose"@);
        lemma_register_keeps(s3, "motiontransfer"@, "facepose"@);
        lemma_register_registers(s3, "facepose"@);
        lemma_register_keeps(s4, "monodepth"@, "salientobject"@);
        lemma_register_keeps(s4, "semseg"@, "salientobject"@);
        lemma_register_keeps(s4, "motiontransfer"@, "salientobject"@);
        lemma_register_keeps(s4, "facepose"@, "salientobject"@);
        lemma_register_registers(s4, "salientobject"@);
    }
    Ok(())
}

} // verus!
