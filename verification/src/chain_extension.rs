//! Host calls beyond the built-in set, registered under numeric identifiers.

use vstd::prelude::*;
use std::collections::HashMap;

verus! {

broadcast use vstd::std_specs::hash::group_hash_axioms;

/// A host call that a test registers with the engine.
pub trait ChainExtension {
    /// Whether the extension, as it stands, may answer `input` with this
    /// status code and payload. Each extension says for itself what it
    /// answers; one that does not say may answer anything. The engine knows
    /// no more of a registered extension than this name.
    open spec fn answers(&self, input: Seq<u8>, status: u32, payload: Seq<u8>) -> bool {
        true
    }

    /// The identifier that the extension names for itself: the number that
    /// `func_id` returns.
    spec fn identifier(&self) -> u32;

    /// Returns the identifier under which the extension is to be registered:
    /// the one it names for itself.
    fn func_id(&self) -> (id: u32)
        ensures
            id == self.identifier(),
    ;

    /// Runs the extension on `input`, writes its payload to `output`, which
    /// it is handed empty, and returns its status code.
    fn call(&mut self, input: &[u8], output: &mut Vec<u8>) -> (status: u32)
        requires
            old(output)@.len() == 0,
        ensures
            old(self).answers(input@, status, final(output)@),
    ;
}

/// Why a chain extension could not be run.
#[derive(Debug, Clone, Copy, PartialEq, Eq, Structural)]
pub enum ExtensionError {
    /// No extension is registered under the identifier.
    MissingChainExtension,
}

/// A registered extension.
pub struct Registration {
    /// The extension.
    pub extension: Box<dyn ChainExtension>,
}

/// The registry of chain extensions.
pub struct ChainExtensionHandler {
    registered: HashMap<u32, Registration>,
}

impl ChainExtensionHandler {
    /// The registered extensions, each under its identifier.
    pub closed spec fn registrations(&self) -> Map<u32, Registration> {
        self.registered@
    }

    /// The identifiers under which an extension is registered.
    pub open spec fn ids(&self) -> Set<u32> {
        self.registrations().dom()
    }

    /// The registration under `id`, where there is one.
    pub open spec fn registration(&self, id: u32) -> Registration {
        self.registrations()[id]
    }

    /// Creates a registry without extensions.
    pub fn new() -> (handler: Self)
        ensures
            handler.registrations() == Map::<u32, Registration>::empty(),
            handler.ids() == Set::<u32>::empty(),
    {
        let handler = ChainExtensionHandler { registered: HashMap::new() };
        assert(handler.ids() =~= Set::<u32>::empty());
        handler
    }

    /// Tells whether an extension is registered under `func_id`.
    pub fn is_registered(&self, func_id: u32) -> (found: bool)
        ensures
            found == self.ids().contains(func_id),
    {
        self.registered.contains_key(&func_id)
    }

    /// Puts `entry` under the identifier `id`, in place of any registration
    /// under it before, and returns that one. Every other identifier keeps
    /// its registration.
    pub fn register_entry(&mut self, id: u32, entry: Registration) -> (previous: Option<
        Registration,
    >)
        ensures
            final(self).registrations() == old(self).registrations().insert(id, entry),
            final(self).ids() == old(self).ids().insert(id),
            final(self).registration(id) == entry,
            forall|other: u32|
                other != id && old(self).ids().contains(other) ==> #[trigger] final(
                    self
                ).registration(other) == old(self).registration(other),
            match previous {
                Some(before) => old(self).ids().contains(id) && before == old(self).registration(
                    id,
                ),
                None => !old(self).ids().contains(id),
            },
    {
        let previous = self.registered.insert(id, entry);
        assert(final(self).ids() =~= old(self).ids().insert(id));
        previous
    }

    /// Registers `extension` under the identifier `id`, in place of any
    /// extension registered under it before. Every other identifier keeps
    /// its extension.
    pub fn register_as(&mut self, id: u32, extension: Box<dyn ChainExtension>)
        ensures
            final(self).ids() == old(self).ids().insert(id),
            final(self).registration(id) == (Registration { extension }),
            forall|other: u32|
                other != id && old(self).ids().contains(other) ==> #[trigger] final(
                    self
                ).registration(other) == old(self).registration(other),
    {
        let entry = Registration { extension };
        self.register_entry(id, entry);
    }

    /// Puts `entry` under the identifier that its extension names for itself,
    /// in place of any registration under it before. Every other identifier
    /// keeps its registration.
    pub fn register_named(&mut self, entry: Registration)
        ensures
            final(self).ids() == old(self).ids().insert(entry.extension.identifier()),
            final(self).registration(entry.extension.identifier()) == entry,
            forall|other: u32|
                other != entry.extension.identifier() && old(self).ids().contains(other)
                    ==> #[trigger] final(self).registration(other) == old(self).registration(other),
    {
        let id = entry.extension.func_id();
        self.register_entry(id, entry);
    }

    /// Registers `extension` under the identifier it names for itself, in
    /// place of any extension registered under it before. Every other
    /// identifier keeps its extension.
    pub fn register(&mut self, extension: Box<dyn ChainExtension>)
        ensures
            final(self).ids() == old(self).ids().insert(extension.identifier()),
            forall|other: u32|
                other != extension.identifier() && old(self).ids().contains(other)
                    ==> #[trigger] final(self).registration(other) == old(self).registration(other),
    {
        let id = extension.func_id();
        self.register_as(id, extension);
    }

    /// Runs the extension registered under `func_id` on `input`, with an
    /// empty buffer for its payload, and returns the status code and the
    /// payload that it answered; without such an extension it fails and
    /// changes nothing. The registry holds the same identifiers afterwards,
    /// and every other identifier keeps its extension as it was.
    pub fn eval(&mut self, func_id: u32, input: &[u8]) -> (outcome: Result<
        (u32, Vec<u8>),
        ExtensionError,
    >)
        ensures
            final(self).ids() == old(self).ids(),
            outcome is Ok <==> old(self).ids().contains(func_id),
            outcome is Err ==> final(self).registrations() == old(self).registrations(),
            outcome matches Ok(answer) ==> old(self).registration(func_id).extension.answers(
                input@,
                answer.0,
                answer.1@,
            ),
            forall|other: u32|
                other != func_id && old(self).ids().contains(other) ==> #[trigger] final(
                    self
                ).registration(other) == old(self).registration(other),
    {
        match self.registered.remove(&func_id) {
            Some(entry) => {
                let mut entry = entry;
                let mut output: Vec<u8> = Vec::new();
                let status = entry.extension.call(input, &mut output);
                self.register_entry(func_id, entry);
                assert(final(self).ids() =~= old(self).ids());
                Ok((status, output))
            },
            None => {
                assert(final(self).registrations() =~= old(self).registrations());
                Err(ExtensionError::MissingChainExtension)
            },
        }
    }
}

} // verus!
