//! Service domains and the keys that credentials are filed under.

use crate::text::{join2, join3};
use vstd::prelude::*;

verus! {

/// The backend service that a credential belongs to.
#[derive(Debug, Clone, Copy, PartialEq, Eq, Hash, Structural)]
pub enum CredentialDomain {
    FabreX,
    Gryf,
    Supernode,
    Redfish,
}

impl CredentialDomain {
    /// The domain's name as it is shown and stored.
    pub open spec fn name_text(self) -> Seq<char> {
        match self {
            CredentialDomain::FabreX => "FabreX"@,
            CredentialDomain::Gryf => "Gryf"@,
            CredentialDomain::Supernode => "Supernode"@,
            CredentialDomain::Redfish => "Redfish"@,
        }
    }

    /// The domain's name.
    pub fn name(&self) -> (r: &'static str)
        ensures
            r@ == self.name_text(),
    {
        match self {
            CredentialDomain::FabreX => "FabreX",
            CredentialDomain::Gryf => "Gryf",
            CredentialDomain::Supernode => "Supernode",
            CredentialDomain::Redfish => "Redfish",
        }
    }

    /// The domain's name as an owned text.
    pub fn to_string(&self) -> (r: String)
        ensures
            r@ == self.name_text(),
    {
        self.name().to_owned()
    }

    /// The four domains, in the order in which they are checked.
    pub open spec fn all_spec() -> Seq<CredentialDomain> {
        seq![
            CredentialDomain::FabreX,
            CredentialDomain::Gryf,
            CredentialDomain::Supernode,
            CredentialDomain::Redfish,
        ]
    }

    /// The four domains, in the order in which they are checked.
    pub fn all() -> (r: Vec<CredentialDomain>)
        ensures
            r@ == Self::all_spec(),
    {
        let mut out: Vec<CredentialDomain> = Vec::new();
        out.push(CredentialDomain::FabreX);
        out.push(CredentialDomain::Gryf);
        out.push(CredentialDomain::Supernode);
        out.push(CredentialDomain::Redfish);
        out
    }
}

/// A domain and a scope under it: what one stored secret, and one cached
/// token, is filed under.
#[derive(Debug, PartialEq, Eq, Hash)]
pub struct CredentialKey {
    domain: CredentialDomain,
    scope: String,
}

impl View for CredentialKey {
    type V = (CredentialDomain, Seq<char>);

    closed spec fn view(&self) -> (CredentialDomain, Seq<char>) {
        (self.domain, self.scope@)
    }
}

impl Clone for CredentialKey {
    fn clone(&self) -> (r: Self)
        ensures
            r == *self,
    {
        CredentialKey { domain: self.domain, scope: self.scope.clone() }
    }
}

/// The text under which a store files the secret of the key `(domain, scope)`.
pub open spec fn storage_key_text(key: (CredentialDomain, Seq<char>)) -> Seq<char> {
    key.0.name_text() + "::"@ + key.1
}

/// The text that shows the key `(domain, scope)` to a person.
pub open spec fn key_label_text(key: (CredentialDomain, Seq<char>)) -> Seq<char> {
    key.0.name_text() + " ["@ + key.1 + "]"@
}

impl CredentialKey {
    /// The key of `scope` under `domain`.
    pub fn new(domain: CredentialDomain, scope: &str) -> (r: Self)
        ensures
            r@ == (domain, scope@),
    {
        CredentialKey { domain, scope: scope.to_owned() }
    }

    /// The key of the scope `default` under `domain`.
    pub fn default(domain: CredentialDomain) -> (r: Self)
        ensures
            r@ == (domain, "default"@),
    {
        Self::new(domain, "default")
    }

    /// The key's domain.
    pub fn domain(&self) -> (r: &CredentialDomain)
        ensures
            *r == self@.0,
    {
        &self.domain
    }

    /// The key's scope.
    pub fn scope(&self) -> (r: &str)
        ensures
            r@ == self@.1,
    {
        self.scope.as_str()
    }

    /// Whether the two keys name the same domain and scope.
    pub fn same_as(&self, other: &CredentialKey) -> (r: bool)
        ensures
            r == (self@ == other@),
    {
        self.domain == other.domain && self.scope == other.scope
    }

    /// The text under which a store files the key's secret: the domain's
    /// name, two colons, the scope.
    pub fn storage_key(&self) -> (r: String)
        ensures
            r@ == storage_key_text(self@),
    {
        join3(self.domain.name(), "::", self.scope.as_str())
    }

    /// The key as shown to a person: the domain's name, then the scope in
    /// square brackets.
    pub fn to_string(&self) -> (r: String)
        ensures
            r@ == key_label_text(self@),
    {
        let head = join3(self.domain.name(), " [", self.scope.as_str());
        join2(head.as_str(), "]")
    }
}

/// No two domains share a name, and no name is empty.
pub proof fn lemma_domain_names_differ(a: CredentialDomain, b: CredentialDomain)
    ensures
        a.name_text().len() > 0,
        a != b ==> a.name_text()[0] != b.name_text()[0],
{
    reveal_strlit("FabreX");
    reveal_strlit("Gryf");
    reveal_strlit("Supernode");
    reveal_strlit("Redfish");
}

/// Two keys are filed under the same text only if they are the same key: a
/// store that goes by the storage key keeps distinct keys apart.
pub proof fn lemma_storage_key_injective(
    a: (CredentialDomain, Seq<char>),
    b: (CredentialDomain, Seq<char>),
)
    requires
        storage_key_text(a) == storage_key_text(b),
    ensures
        a == b,
{
    lemma_domain_names_differ(a.0, b.0);
    lemma_domain_names_differ(b.0, a.0);
    let ta = storage_key_text(a);
    let tb = storage_key_text(b);
    assert(ta[0] == a.0.name_text()[0]);
    assert(tb[0] == b.0.name_text()[0]);
    assert(a.0 == b.0);
    let head = a.0.name_text() + "::"@;
    assert(ta.subrange(head.len() as int, ta.len() as int) =~= a.1);
    assert(tb.subrange(head.len() as int, tb.len() as int) =~= b.1);
}

} // verus!
