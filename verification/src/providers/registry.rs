//! The registry of provider adapters, keyed by the family each serves.

use vstd::prelude::*;

use crate::error::{fails_validation, AppError};
use crate::providers::anthropic::AnthropicProvider;
use crate::providers::gemini::GeminiProvider;
use crate::providers::openai_compatible::OpenAiCompatibleProvider;
use crate::text::{concat3, str_eq};

verus! {

/// A provider adapter.
pub trait ChatProvider {
    /// The provider family the adapter serves; an adapter that states it
    /// replaces this unknown default.
    open spec fn family(&self) -> Seq<char> {
        vstd::pervasive::arbitrary()
    }

    /// The provider family the adapter serves, such as `openai_compatible`.
    fn provider_type(&self) -> (r: &'static str)
        ensures
            r@ == self.family();
}

/// The families the adapters serve, in order.
pub open spec fn families_of<P: ChatProvider>(adapters: Seq<P>) -> Seq<Seq<char>> {
    adapters.map_values(|p: P| p.family())
}

/// The message of the error for a family without an adapter.
pub open spec fn unsupported_provider_message(t: Seq<char>) -> Seq<char> {
    "unsupported provider type '"@ + t + "'"@
}

/// The adapters, at most one per family.
pub struct ProviderRegistry<P> {
    providers: Vec<(String, P)>,
    index: Ghost<Map<Seq<char>, P>>,
}

impl<P> View for ProviderRegistry<P> {
    type V = Map<Seq<char>, P>;

    /// The adapter of each family.
    closed spec fn view(&self) -> Map<Seq<char>, P> {
        self.index@
    }
}

/// The adapters after `adapters` are registered in order, each under the
/// family of the same position in `families`; a later one replaces an
/// earlier one of its family.
pub open spec fn registered_in_order<P>(families: Seq<Seq<char>>, adapters: Seq<P>) -> Map<Seq<char>, P>
    decreases adapters.len(),
{
    if adapters.len() == 0 || families.len() == 0 {
        Map::empty()
    } else {
        registered_in_order(families.drop_last(), adapters.drop_last()).insert(families.last(), adapters.last())
    }
}

impl<P: ChatProvider> ProviderRegistry<P> {
    /// The internal invariant: one entry per family, and the entries are
    /// exactly the adapters of the view.
    pub closed spec fn wf(&self) -> bool {
        &&& forall|i: int, j: int|
            0 <= i < self.providers@.len() && 0 <= j < self.providers@.len() && i != j
                ==> #[trigger] self.providers@[i].0@ != #[trigger] self.providers@[j].0@
        &&& forall|i: int|
            0 <= i < self.providers@.len() ==> self.index@.contains_key(#[trigger] self.providers@[i].0@)
                && self.index@[self.providers@[i].0@] == self.providers@[i].1
        &&& forall|k: Seq<char>|
            #[trigger] self.index@.contains_key(k) ==> exists|i: int|
                0 <= i < self.providers@.len() && #[trigger] self.providers@[i].0@ == k
    }

    /// An empty registry.
    pub fn new() -> (r: Self)
        ensures
            r.wf(),
            r@ == Map::<Seq<char>, P>::empty(),
    {
        ProviderRegistry { providers: Vec::new(), index: Ghost(Map::empty()) }
    }

    /// A registry holding the given adapters, each under the family it serves.
    pub fn with_adapters(defaults: Vec<P>) -> (r: Self)
        ensures
            r.wf(),
            r@.dom().finite(),
            r@.dom().len() <= defaults@.len(),
            r@ == registered_in_order(families_of(defaults@), defaults@),
    {
        let mut registry = Self::new();
        let ghost all = defaults@;
        let mut defaults = defaults;
        let ghost n = defaults@.len();
        let ghost mut families: Seq<Seq<char>> = Seq::empty();
        assert(all.take(0) =~= Seq::<P>::empty());
        assert(all.subrange(0, n as int) =~= all);
        while defaults.len() > 0
            invariant
                registry.wf(),
                registry@.dom().finite(),
                registry@.dom().len() + defaults@.len() <= n,
                n == all.len(),
                families.len() + defaults@.len() == n,
                defaults@ == all.subrange(families.len() as int, n as int),
                registry@ == registered_in_order(families, all.take(families.len() as int)),
                forall|j: int| 0 <= j < families.len() ==> families[j] == (#[trigger] all[j]).family(),
            decreases defaults@.len(),
        {
            let ghost i = families.len() as int;
            let ghost before = registry@;
            let provider = defaults.remove(0);
            let ghost p = provider;
            assert(p == all[i]);
            registry.register(provider);
            proof {
                let k = p.family();
                let next = families.push(k);
                assert(all.take(i + 1).drop_last() =~= all.take(i));
                assert(all.take(i + 1).last() == p);
                assert(next.drop_last() =~= families);
                families = next;
                assert(defaults@ =~= all.subrange(families.len() as int, n as int));
            }
        }
        assert(all.take(n as int) =~= all);
        assert(families =~= families_of(all)) by {
            assert forall|j: int| 0 <= j < families.len() implies families[j] == families_of(all)[j] by {}
        }
        registry
    }

    fn position(&self, provider_type: &str) -> (r: Option<usize>)
        requires
            self.wf(),
        ensures
            match r {
                Some(i) => i < self.providers@.len() && self.providers@[i as int].0@ == provider_type@,
                None => !self@.contains_key(provider_type@),
            },
    {
        let mut i: usize = 0;
        while i < self.providers.len()
            invariant
                self.wf(),
                i <= self.providers@.len(),
                forall|j: int| 0 <= j < i ==> self.providers@[j].0@ != provider_type@,
            decreases self.providers.len() - i,
        {
            if str_eq(self.providers[i].0.as_str(), provider_type) {
                return Some(i);
            }
            i = i + 1;
        }
        None
    }

    /// Registers `provider` under the family `provider_type`, replacing the
    /// adapter that family had.
    #[verifier::spinoff_prover]
    pub fn register_as(&mut self, provider_type: &str, provider: P)
        requires
            old(self).wf(),
        ensures
            final(self).wf(),
            final(self)@ == old(self)@.insert(provider_type@, provider),
    {
        let ghost before = self.providers@;
        let ghost p = provider;
        match self.position(provider_type) {
            Some(i) => {
                self.providers.set(i, (String::from_str(provider_type), provider));
                proof {
                    self.index@ = self.index@.insert(provider_type@, p);
                    assert forall|k: Seq<char>| #[trigger] self.index@.contains_key(k) implies exists|j: int|
                        0 <= j < self.providers@.len() && #[trigger] self.providers@[j].0@ == k by {
                        if k != provider_type@ {
                            let j = choose|j: int| 0 <= j < before.len() && #[trigger] before[j].0@ == k;
                            assert(self.providers@[j].0@ == k);
                        } else {
                            assert(self.providers@[i as int].0@ == k);
                        }
                    }
                }
            },
            None => {
                self.providers.push((String::from_str(provider_type), provider));
                proof {
                    self.index@ = self.index@.insert(provider_type@, p);
                    let n = before.len() as int;
                    assert forall|k: Seq<char>| #[trigger] self.index@.contains_key(k) implies exists|j: int|
                        0 <= j < self.providers@.len() && #[trigger] self.providers@[j].0@ == k by {
                        if k != provider_type@ {
                            let j = choose|j: int| 0 <= j < before.len() && #[trigger] before[j].0@ == k;
                            assert(self.providers@[j].0@ == k);
                        } else {
                            assert(self.providers@[n].0@ == k);
                        }
                    }
                }
            },
        }
    }

    /// Registers `provider` under the family it reports serving, replacing
    /// the adapter that family had.
    pub fn register(&mut self, provider: P)
        requires
            old(self).wf(),
        ensures
            final(self).wf(),
            final(self)@ == old(self)@.insert(provider.family(), provider),
    {
        let provider_type = provider.provider_type();
        self.register_as(provider_type, provider);
    }

    /// The adapter of the family `provider_type`, or a validation error when none is registered.
    pub fn get(&self, provider_type: &str) -> (r: Result<&P, AppError>)
        requires
            self.wf(),
        ensures
            match r {
                Ok(p) => self@.contains_key(provider_type@) && *p == self@[provider_type@],
                Err(_) => !self@.contains_key(provider_type@) && fails_validation(
                    r,
                    "VALIDATION_ERROR"@,
                    unsupported_provider_message(provider_type@),
                ),
            },
    {
        match self.position(provider_type) {
            Some(i) => Ok(&self.providers[i].1),
            None => {
                let message = concat3("unsupported provider type '", provider_type, "'");
                Err(AppError::validation("VALIDATION_ERROR", message.as_str()))
            },
        }
    }
}

/// The adapter registered last for a family is the one found for it, and
/// registering for one family leaves the others as they were.
pub proof fn law_get_after_register<P>(before: Map<Seq<char>, P>, family: Seq<char>, provider: P, other: Seq<char>)
    requires
        other != family,
    ensures
        before.insert(family, provider).contains_key(family),
        before.insert(family, provider)[family] == provider,
        before.insert(family, provider).contains_key(other) == before.contains_key(other),
        before.contains_key(other) ==> before.insert(family, provider)[other] == before[other],
{
}


/// `i` is the last position in `families` that holds `t`.
pub open spec fn last_position_of(families: Seq<Seq<char>>, t: Seq<char>, i: int) -> bool {
    &&& 0 <= i < families.len()
    &&& families[i] == t
    &&& forall|j: int| i < j < families.len() ==> families[j] != t
}

/// After adapters are registered one after another, a family has an adapter
/// exactly when one of them was registered for it, and the adapter found for
/// it is the last one registered for it.
pub proof fn law_last_registration_wins<P>(families: Seq<Seq<char>>, adapters: Seq<P>, t: Seq<char>)
    requires
        families.len() == adapters.len(),
    ensures
        registered_in_order(families, adapters).contains_key(t) == families.contains(t),
        forall|i: int| #[trigger] last_position_of(families, t, i)
            ==> registered_in_order(families, adapters)[t] == adapters[i],
    decreases adapters.len(),
{
    if adapters.len() > 0 {
        let f0 = families.drop_last();
        let a0 = adapters.drop_last();
        let n = families.len() - 1;
        law_last_registration_wins(f0, a0, t);
        let m = registered_in_order(families, adapters);
        assert(m == registered_in_order(f0, a0).insert(families[n], adapters[n]));
        if families.contains(t) && families[n] != t {
            let i = choose|i: int| 0 <= i < families.len() && families[i] == t;
            assert(f0[i] == t);
            assert(f0.contains(t));
        }
        if f0.contains(t) {
            let i = choose|i: int| 0 <= i < f0.len() && f0[i] == t;
            assert(families[i] == t);
        }
        if families[n] == t {
            assert(families.contains(t));
        }
        assert forall|i: int| #[trigger] last_position_of(families, t, i) implies m[t] == adapters[i] by {
            if i < n {
                assert(families[n] != t);
                assert(last_position_of(f0, t, i));
                assert(a0[i] == adapters[i]);
            }
        }
    }
}

/// One of the adapters the application ships with.
#[derive(Debug, Clone, Copy, PartialEq, Eq)]
pub enum DefaultProvider {
    Anthropic(AnthropicProvider),
    Gemini(GeminiProvider),
    OpenAiCompatible(OpenAiCompatibleProvider),
}

impl ChatProvider for DefaultProvider {
    open spec fn family(&self) -> Seq<char> {
        match self {
            DefaultProvider::Anthropic(_) => "anthropic"@,
            DefaultProvider::Gemini(_) => "gemini"@,
            DefaultProvider::OpenAiCompatible(_) => "openai_compatible"@,
        }
    }

    fn provider_type(&self) -> (r: &'static str) {
        match self {
            DefaultProvider::Anthropic(p) => p.provider_type(),
            DefaultProvider::Gemini(p) => p.provider_type(),
            DefaultProvider::OpenAiCompatible(p) => p.provider_type(),
        }
    }
}

/// The adapters the application ships with, by family.
pub open spec fn default_adapters() -> Map<Seq<char>, DefaultProvider> {
    Map::<Seq<char>, DefaultProvider>::empty().insert("anthropic"@, DefaultProvider::Anthropic(AnthropicProvider)).insert(
        "gemini"@,
        DefaultProvider::Gemini(GeminiProvider),
    ).insert("openai_compatible"@, DefaultProvider::OpenAiCompatible(OpenAiCompatibleProvider))
}

impl ProviderRegistry<DefaultProvider> {
    /// The registry of the adapters the application ships with: Anthropic,
    /// Gemini and OpenAI-compatible, each under its family, and no other.
    pub fn with_defaults() -> (r: Self)
        ensures
            r.wf(),
            r@ == default_adapters(),
    {
        let mut registry = Self::new();
        registry.register(DefaultProvider::Anthropic(AnthropicProvider::new()));
        registry.register(DefaultProvider::Gemini(GeminiProvider::new()));
        registry.register(DefaultProvider::OpenAiCompatible(OpenAiCompatibleProvider::new()));
        registry
    }
}

} // verus!
