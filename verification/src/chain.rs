//! Telling the Setheum, Neom and NewRome chains apart by the identifier of
//! their chain specification, and choosing the runtime for chain operations.

use vstd::prelude::*;

verus! {

/// `prefix` is a prefix of `s`.
pub open spec fn has_prefix(s: Seq<char>, prefix: Seq<char>) -> bool {
    prefix.len() <= s.len() && s.subrange(0, prefix.len() as int) == prefix
}

/// Calls `str::starts_with` with a string pattern, which std documents as
/// returning `true` exactly when the pattern matches a prefix of the string.
#[verifier::external_body]
fn str_starts_with(s: &str, prefix: &str) -> (r: bool)
    ensures
        r == has_prefix(s@, prefix@),
{
    s.starts_with(prefix)
}

pub open spec fn prefix_setheum() -> Seq<char> {
    seq!['s', 'e', 't', 'h', 'e', 'u', 'm']
}

pub open spec fn prefix_set() -> Seq<char> {
    seq!['s', 'e', 't']
}

pub open spec fn prefix_neom() -> Seq<char> {
    seq!['n', 'e', 'o', 'm']
}

pub open spec fn prefix_neo() -> Seq<char> {
    seq!['n', 'e', 'o']
}

pub open spec fn prefix_newrome() -> Seq<char> {
    seq!['n', 'e', 'w', 'r', 'o', 'm', 'e']
}

pub open spec fn prefix_rom() -> Seq<char> {
    seq!['r', 'o', 'm']
}

pub open spec fn prefix_newrome_dev() -> Seq<char> {
    seq!['n', 'e', 'w', 'r', 'o', 'm', 'e', '-', 'd', 'e', 'v']
}

/// The identifier names a Setheum chain: it starts with `setheum` or `set`.
pub open spec fn is_setheum_id(id: Seq<char>) -> bool {
    has_prefix(id, prefix_setheum()) || has_prefix(id, prefix_set())
}

/// The identifier names a Neom chain: it starts with `neom` or `neo`.
pub open spec fn is_neom_id(id: Seq<char>) -> bool {
    has_prefix(id, prefix_neom()) || has_prefix(id, prefix_neo())
}

/// The identifier names a NewRome chain: it starts with `newrome` or `rom`.
pub open spec fn is_newrome_id(id: Seq<char>) -> bool {
    has_prefix(id, prefix_newrome()) || has_prefix(id, prefix_rom())
}

/// The identifier names a NewRome development chain: it starts with
/// `newrome-dev`.
pub open spec fn is_newrome_dev_id(id: Seq<char>) -> bool {
    has_prefix(id, prefix_newrome_dev())
}

/// Can be asked of a chain specification whether it is a configuration for
/// the Setheum, Neom, NewRome or NewRome development network.
pub trait IdentifyVariant {
    /// The identifier of the chain specification.
    spec fn chain_id(&self) -> Seq<char>;

    /// Returns `true` if this is a configuration for the `Setheum` network.
    fn is_setheum(&self) -> (r: bool)
        ensures
            r == is_setheum_id(self.chain_id()),
    ;

    /// Returns `true` if this is a configuration for the `Neom` network.
    fn is_neom(&self) -> (r: bool)
        ensures
            r == is_neom_id(self.chain_id()),
    ;

    /// Returns `true` if this is a configuration for the `NewRome` network.
    fn is_newrome(&self) -> (r: bool)
        ensures
            r == is_newrome_id(self.chain_id()),
    ;

    /// Returns `true` if this is a configuration for the `Newrome` dev network.
    fn is_newrome_dev(&self) -> (r: bool)
        ensures
            r == is_newrome_dev_id(self.chain_id()),
    ;
}

/// The identifier of a chain specification.
pub struct ChainSpecId {
    pub id: String,
}

impl ChainSpecId {
    /// A chain specification known by its identifier.
    pub fn new(id: String) -> (r: ChainSpecId)
        ensures
            r.id@ == id@,
    {
        ChainSpecId { id }
    }
}

impl IdentifyVariant for ChainSpecId {
    open spec fn chain_id(&self) -> Seq<char> {
        self.id@
    }

    fn is_setheum(&self) -> (r: bool) {
        proof {
            reveal_strlit("setheum");
            assert("setheum"@ =~= prefix_setheum());
            reveal_strlit("set");
            assert("set"@ =~= prefix_set());
        }
        str_starts_with(self.id.as_str(), "setheum") || str_starts_with(self.id.as_str(), "set")
    }

    fn is_neom(&self) -> (r: bool) {
        proof {
            reveal_strlit("neom");
            assert("neom"@ =~= prefix_neom());
            reveal_strlit("neo");
            assert("neo"@ =~= prefix_neo());
        }
        str_starts_with(self.id.as_str(), "neom") || str_starts_with(self.id.as_str(), "neo")
    }

    fn is_newrome(&self) -> (r: bool) {
        proof {
            reveal_strlit("newrome");
            assert("newrome"@ =~= prefix_newrome());
            reveal_strlit("rom");
            assert("rom"@ =~= prefix_rom());
        }
        str_starts_with(self.id.as_str(), "newrome") || str_starts_with(self.id.as_str(), "rom")
    }

    fn is_newrome_dev(&self) -> (r: bool) {
        proof {
            reveal_strlit("newrome-dev");
            assert("newrome-dev"@ =~= prefix_newrome_dev());
        }
        str_starts_with(self.id.as_str(), "newrome-dev")
    }
}

/// A prefix fixes the characters it covers.
proof fn lemma_prefix_char(s: Seq<char>, prefix: Seq<char>, k: int)
    requires
        has_prefix(s, prefix),
        0 <= k < prefix.len(),
    ensures
        s[k] == prefix[k],
{
    assert(s.subrange(0, prefix.len() as int)[k] == s[k]);
}

/// A prefix of a prefix is a prefix.
proof fn lemma_prefix_of_prefix(s: Seq<char>, long: Seq<char>, short: Seq<char>)
    requires
        has_prefix(s, long),
        has_prefix(long, short),
    ensures
        has_prefix(s, short),
{
    assert(s.subrange(0, short.len() as int) =~= long.subrange(0, short.len() as int));
}

/// No identifier names two of the networks: Setheum, Neom and NewRome
/// identifiers are told apart by their first characters.
pub proof fn lemma_variants_exclusive(id: Seq<char>)
    ensures
        !(is_setheum_id(id) && is_neom_id(id)),
        !(is_setheum_id(id) && is_newrome_id(id)),
        !(is_neom_id(id) && is_newrome_id(id)),
{
    if has_prefix(id, prefix_setheum()) {
        lemma_prefix_char(id, prefix_setheum(), 0);
    }
    if has_prefix(id, prefix_set()) {
        lemma_prefix_char(id, prefix_set(), 0);
    }
    if has_prefix(id, prefix_neom()) {
        lemma_prefix_char(id, prefix_neom(), 0);
        lemma_prefix_char(id, prefix_neom(), 2);
    }
    if has_prefix(id, prefix_neo()) {
        lemma_prefix_char(id, prefix_neo(), 0);
        lemma_prefix_char(id, prefix_neo(), 2);
    }
    if has_prefix(id, prefix_newrome()) {
        lemma_prefix_char(id, prefix_newrome(), 0);
        lemma_prefix_char(id, prefix_newrome(), 2);
    }
    if has_prefix(id, prefix_rom()) {
        lemma_prefix_char(id, prefix_rom(), 0);
    }
}

/// Every NewRome development identifier is also a NewRome identifier.
pub proof fn lemma_newrome_dev_is_newrome(id: Seq<char>)
    ensures
        is_newrome_dev_id(id) ==> is_newrome_id(id),
{
    if is_newrome_dev_id(id) {
        assert(has_prefix(prefix_newrome_dev(), prefix_newrome())) by {
            assert(prefix_newrome_dev().subrange(0, 7) =~= prefix_newrome());
        }
        lemma_prefix_of_prefix(id, prefix_newrome_dev(), prefix_newrome());
    }
}

/// The longer Setheum and Neom prefixes add nothing: an identifier is a
/// Setheum one exactly when it starts with `set`, a Neom one exactly when it
/// starts with `neo`.
pub proof fn lemma_short_prefixes_decide(id: Seq<char>)
    ensures
        is_setheum_id(id) <==> has_prefix(id, prefix_set()),
        is_neom_id(id) <==> has_prefix(id, prefix_neo()),
{
    if has_prefix(id, prefix_setheum()) {
        assert(prefix_setheum().subrange(0, 3) =~= prefix_set());
        lemma_prefix_of_prefix(id, prefix_setheum(), prefix_set());
    }
    if has_prefix(id, prefix_neom()) {
        assert(prefix_neom().subrange(0, 3) =~= prefix_neo());
        lemma_prefix_of_prefix(id, prefix_neom(), prefix_neo());
    }
}

/// What each check accepts, character by character: a Setheum identifier
/// starts with `set`, a Neom one with `neo`, a NewRome one with `newrome` or
/// `rom`, and a NewRome development one with the eleven characters
/// `newrome-dev`.
pub proof fn lemma_variant_prefixes(id: Seq<char>)
    ensures
        is_setheum_id(id) <==> (id.len() >= 3 && id[0] == 's' && id[1] == 'e' && id[2] == 't'),
        is_neom_id(id) <==> (id.len() >= 3 && id[0] == 'n' && id[1] == 'e' && id[2] == 'o'),
        is_newrome_id(id) <==> ((id.len() >= 7 && id[0] == 'n' && id[1] == 'e' && id[2] == 'w' && id[3] == 'r' && id[4] == 'o' && id[5] == 'm' && id[6] == 'e') || (id.len() >= 3
            && id[0] == 'r' && id[1] == 'o' && id[2] == 'm')),
        is_newrome_dev_id(id) <==> (id.len() >= 11 && id[0] == 'n' && id[1] == 'e' && id[2] == 'w' && id[3] == 'r' && id[4] == 'o' && id[5] == 'm' && id[6] == 'e' && id[7] == '-' && id[8] == 'd' && id[9] == 'e' && id[10] == 'v'),
{
    lemma_short_prefixes_decide(id);
    assert(has_prefix(id, prefix_set()) <==> (id.len() >= 3 && id[0] == 's' && id[1] == 'e' && id[2] == 't')) by {
        if id.len() >= 3 {
            assert(id.subrange(0, 3) =~= prefix_set() <==> (id[0] == 's' && id[1] == 'e' && id[2] == 't'));
        }
    }
    assert(has_prefix(id, prefix_neo()) <==> (id.len() >= 3 && id[0] == 'n' && id[1] == 'e' && id[2] == 'o')) by {
        if id.len() >= 3 {
            assert(id.subrange(0, 3) =~= prefix_neo() <==> (id[0] == 'n' && id[1] == 'e' && id[2] == 'o'));
        }
    }
    assert(has_prefix(id, prefix_rom()) <==> (id.len() >= 3 && id[0] == 'r' && id[1] == 'o' && id[2] == 'm')) by {
        if id.len() >= 3 {
            assert(id.subrange(0, 3) =~= prefix_rom() <==> (id[0] == 'r' && id[1] == 'o' && id[2] == 'm'));
        }
    }
    assert(has_prefix(id, prefix_newrome()) <==> (id.len() >= 7 && id[0] == 'n' && id[1] == 'e' && id[2] == 'w' && id[3] == 'r' && id[4] == 'o' && id[5] == 'm' && id[6] == 'e')) by {
        if id.len() >= 7 {
            assert(id.subrange(0, 7) =~= prefix_newrome() <==> (id[0] == 'n' && id[1] == 'e' && id[2] == 'w' && id[3] == 'r' && id[4] == 'o' && id[5] == 'm' && id[6] == 'e'));
        }
    }
    assert(has_prefix(id, prefix_newrome_dev()) <==> (id.len() >= 11 && id[0] == 'n' && id[1] == 'e' && id[2] == 'w' && id[3] == 'r' && id[4] == 'o' && id[5] == 'm' && id[6] == 'e' && id[7] == '-' && id[8] == 'd' && id[9] == 'e' && id[10] == 'v')) by {
        if id.len() >= 11 {
            assert(id.subrange(0, 11) =~= prefix_newrome_dev() <==> (id[0] == 'n' && id[1] == 'e' && id[2] == 'w' && id[3] == 'r' && id[4] == 'o' && id[5] == 'm' && id[6] == 'e' && id[7] == '-' && id[8] == 'd' && id[9] == 'e' && id[10] == 'v'));
        }
    }
}

/// The runtime that chain operations are built for.
#[derive(PartialEq, Eq, Structural, Clone, Copy, Debug)]
pub enum ChainRuntime {
    NewromeDev,
    Newrome,
    Neom,
    Setheum,
}

/// The runtime for a chain identifier: NewRome development first, then
/// NewRome, then Neom, and Setheum for everything else.
pub open spec fn spec_chain_ops_runtime(id: Seq<char>) -> ChainRuntime {
    if is_newrome_dev_id(id) {
        ChainRuntime::NewromeDev
    } else if is_newrome_id(id) {
        ChainRuntime::Newrome
    } else if is_neom_id(id) {
        ChainRuntime::Neom
    } else {
        ChainRuntime::Setheum
    }
}

/// Chooses the runtime that chain operations (import, export, revert and the
/// like) are built for, from the chain specification.
pub fn chain_ops_runtime<T: IdentifyVariant>(chain_spec: &T) -> (r: ChainRuntime)
    ensures
        r == spec_chain_ops_runtime(chain_spec.chain_id()),
{
    if chain_spec.is_newrome_dev() {
        ChainRuntime::NewromeDev
    } else if chain_spec.is_newrome() {
        ChainRuntime::Newrome
    } else if chain_spec.is_neom() {
        ChainRuntime::Neom
    } else {
        ChainRuntime::Setheum
    }
}

/// A chain is given the runtime of the network its identifier names; a
/// Setheum identifier, and one that names no network, gets the Setheum
/// runtime.
pub proof fn lemma_chain_ops_runtime_matches_variant(id: Seq<char>)
    ensures
        spec_chain_ops_runtime(id) == ChainRuntime::NewromeDev <==> is_newrome_dev_id(id),
        spec_chain_ops_runtime(id) == ChainRuntime::Newrome <==> is_newrome_id(id)
            && !is_newrome_dev_id(id),
        spec_chain_ops_runtime(id) == ChainRuntime::Neom <==> is_neom_id(id),
        is_setheum_id(id) ==> spec_chain_ops_runtime(id) == ChainRuntime::Setheum,
{
    lemma_variants_exclusive(id);
    lemma_newrome_dev_is_newrome(id);
}

} // verus!
